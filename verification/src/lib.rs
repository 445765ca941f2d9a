//! Signature-capture widget core: a stroke-drawing state machine, image
//! export as a base64 data URL, anchor-relative placement geometry, listener
//! lifecycle bookkeeping, and the widget composition that ties them together.
//!
//! The host (a browser page) performs the actual canvas and document
//! mutations; this crate decides what those mutations are and proves the
//! decisions correct.

pub mod base64;
pub mod dom;
pub mod error;
pub mod export;
pub mod listeners;
pub mod placement;
pub mod stroke;
pub mod style;
pub mod text;
pub mod widget;

pub use dom::DomBindings;
pub use dom::HostDoc;
pub use error::SigError;
pub use listeners::ListenerKind;
pub use listeners::ListenerSet;
pub use placement::AnchorGeometry;
pub use placement::PlacementResolver;
pub use stroke::SignaturePad;
pub use widget::LProps;
pub use widget::SignatureHandle;
pub use widget::SignatureProps;
pub use widget::SignatureStyle;
pub use widget::SignatureWidget;
