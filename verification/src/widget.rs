//! The widget composition: one instance wires the drawing state machine,
//! the listener bookkeeping, placement and document mutation together, and
//! decides the sign and clear actions. The host forwards pointer and button
//! events, performs the decided mutations, and delivers the completion
//! notification carried in the sign outcome.

use vstd::prelude::*;
use crate::dom::ContainerView;
use crate::dom::DocView;
use crate::dom::DomBindings;
use crate::dom::HostDoc;
use crate::dom::spec_place;
use crate::listeners::AttachFailure;
use crate::listeners::ListenerKind;
use crate::listeners::ListenerSet;
use crate::placement::AnchorGeometry;
use crate::placement::PlacementResolver;
use crate::placement::clamp_i32;
use crate::placement::spec_resolve;
use crate::stroke::PadEvent;
use crate::stroke::Segment;
use crate::stroke::SignaturePad;
use crate::stroke::pad_step;

verus! {

/// Visual configuration of the signature surface.
pub struct SignatureStyle {
    /// Surface border CSS, e.g. `2px dashed #888`.
    pub border: String,
    /// Surface background CSS color, e.g. `#fff`.
    pub background: String,
    /// Surface extent in CSS pixels.
    pub width: u32,
    pub height: u32,
}

impl Default for SignatureStyle {
    /// The stock look: a dashed grey border on white, 520 by 220 pixels.
    fn default() -> (r: Self)
        ensures
            r.border@ == "2px dashed #888"@,
            r.background@ == "#fff"@,
            r.width == 520,
            r.height == 220,
    {
        SignatureStyle {
            border: String::from_str("2px dashed #888"),
            background: String::from_str("#fff"),
            width: 520,
            height: 220,
        }
    }
}

/// Per-instance configuration of the widget.
pub struct SignatureProps {
    /// The container the signature image is placed into (absolute
    /// positioning inside it).
    pub contract_container_id: String,
    /// Fallback coordinates, used when no anchor geometry is available.
    pub place_x: i32,
    pub place_y: i32,
    pub place_width: i32,
    /// Whether the host currently permits signing.
    pub enabled: bool,
    /// Visual style of the surface; the stock look when absent.
    pub style: Option<SignatureStyle>,
    /// Optional anchor element id inside the container; when present and
    /// resolved, placement aligns to the anchor.
    pub anchor_id: Option<String>,
}

/// The always-visible host's slimmer configuration: container and fallback
/// placement only.
pub struct LProps {
    pub contract_container_id: String,
    pub place_x: i32,
    pub place_y: i32,
    pub place_width: i32,
}

/// The drawing surface state together with its registered subscriptions:
/// the scoped resource one open widget instance owns.
#[derive(Debug)]
pub struct SignatureHandle {
    pub pad: SignaturePad,
    pub listeners: ListenerSet,
}

impl SignatureHandle {
    /// A handle over a fresh surface of the given extent. The host
    /// registers the four pointer subscriptions in order and stops at the
    /// first failure; `ok_*` say how far it came. On any failure the
    /// already-registered prefix is handed back for rollback and no handle
    /// is produced, so a partial registration never survives.
    pub fn new(
        width: u32,
        height: u32,
        ok_down: bool,
        ok_move: bool,
        ok_up: bool,
        ok_leave: bool,
    ) -> (r: Result<SignatureHandle, AttachFailure>)
        ensures
            ok_down && ok_move && ok_up && ok_leave <==> r is Ok,
            r matches Ok(h) ==> h.listeners.attached() && h.pad == (SignaturePad {
                width,
                height,
                drawing: false,
                last_x: 0,
                last_y: 0,
                empty: true,
            }),
            r matches Err(f) ==> {
                &&& f.error matches crate::error::SigError::OpFailed(m)
                &&& !ok_down ==> f.rollback@ =~= Seq::<ListenerKind>::empty()
                &&& ok_down && !ok_move ==> f.rollback@ =~= seq![ListenerKind::Down]
                &&& ok_down && ok_move && !ok_up ==> f.rollback@ =~= seq![
                    ListenerKind::Down,
                    ListenerKind::Move,
                ]
                &&& ok_down && ok_move && ok_up && !ok_leave ==> f.rollback@ =~= seq![
                    ListenerKind::Down,
                    ListenerKind::Move,
                    ListenerKind::Up,
                ]
            },
    {
        let pad = SignaturePad::new(width, height);
        match ListenerSet::attach(ok_down, ok_move, ok_up, ok_leave) {
            Ok(listeners) => Ok(SignatureHandle { pad, listeners }),
            Err(f) => Err(f),
        }
    }

    /// Erases the surface model; the subscriptions are untouched.
    pub fn clear(&mut self)
        ensures
            final(self).pad == (SignaturePad { empty: true, ..old(self).pad }),
            final(self).listeners == old(self).listeners,
    {
        self.pad.clear();
    }

    /// Releases the subscriptions exactly once; later calls hand back
    /// nothing. The returned kinds are what the host must now unregister.
    pub fn release(&mut self) -> (r: Vec<ListenerKind>)
        ensures
            final(self).pad == old(self).pad,
            final(self).listeners.released,
            old(self).listeners.released ==> *final(self) == *old(self) && r@ =~= Seq::<
                ListenerKind,
            >::empty(),
            !old(self).listeners.released ==> final(self).listeners.inactive() && r@ =~= old(
                self,
            ).listeners.spec_active_kinds(),
    {
        self.listeners.release()
    }
}

/// What a sign action decided and produced.
pub struct SignedPlacement {
    /// Container-local placement of the image element.
    pub x: i32,
    pub y: i32,
    pub width: i32,
    /// Whether the container was found and the document mutated.
    pub placed: bool,
    /// The scroll offset the container was brought to, when found.
    pub scroll_top: i32,
    /// Whether a configured anchor element was hidden.
    pub anchor_hidden: bool,
    /// The completion notification payload: the exported embedded-image
    /// string, for the host's `on_signed` callback.
    pub data_url: String,
    /// Subscriptions released by the modal close, for the host to
    /// unregister; empty for an always-visible host.
    pub released: Vec<ListenerKind>,
}

/// The outcome of a sign action: either nothing happened — signing not
/// permitted, no surface open, or nothing drawn — or the placement that was
/// performed.
pub enum SignOutcome {
    NotSigned,
    Signed(SignedPlacement),
}

/// The document after a completed sign action: the image placed, the
/// container scrolled to just above the placement, and the configured
/// anchor hidden when it exists.
pub open spec fn spec_sign_doc(
    d: DocView,
    url: Seq<char>,
    x: int,
    y: int,
    w: int,
    hide_anchor: bool,
) -> DocView {
    let d1 = spec_place(d, url, x, y, w);
    let d2 = match d1.container {
        Some(c) => (DocView { container: Some((ContainerView { scroll_top: clamp_i32(y - 40), ..c })), ..d1 }),
        None => d1,
    };
    if hide_anchor && d2.anchor_style is Some {
        (DocView { anchor_style: Some("display:none"@), ..d2 })
    } else {
        d2
    }
}

/// Two successful sign actions leave exactly one placed image in the
/// container, bearing the second action's data.
pub proof fn lemma_repeated_sign_single_image(
    d: DocView,
    u1: Seq<char>,
    u2: Seq<char>,
    x1: int,
    y1: int,
    w1: int,
    x2: int,
    y2: int,
    w2: int,
    hide1: bool,
    hide2: bool,
)
    requires
        d.container is Some,
    ensures
        ({
            let d1 = spec_sign_doc(d, u1, x1, y1, w1, hide1);
            let d2 = spec_sign_doc(d1, u2, x2, y2, w2, hide2);
            d1.img_count() == 1 && d2.img_count() == 1 && d2.container.unwrap().img.unwrap().src
                == u2
        }),
{
}

/// One widget instance: its configuration, whether its drawing UI is
/// modal-hosted, whether it is open, and the surface handle while open.
pub struct SignatureWidget {
    pub props: SignatureProps,
    /// Whether the drawing UI lives in a modal that closes after signing.
    pub modal: bool,
    pub is_open: bool,
    pub handle: Option<SignatureHandle>,
}

impl SignatureWidget {
    /// Whether a sign action will proceed: the host permits signing, the
    /// drawing UI is open, and ink is on the surface.
    pub open spec fn can_sign(self) -> bool {
        &&& self.props.enabled
        &&& self.is_open
        &&& match self.handle {
            Some(h) => !h.pad.empty,
            None => false,
        }
    }

    /// A closed widget with the given configuration.
    pub fn new(props: SignatureProps, modal: bool) -> (w: Self)
        ensures
            w.props == props,
            w.modal == modal,
            !w.is_open,
            w.handle is None,
    {
        SignatureWidget { props, modal, is_open: false, handle: None }
    }

    /// An always-visible widget from the slim configuration: always
    /// enabled, no anchor, stock style.
    pub fn from_lprops(props: LProps) -> (w: Self)
        ensures
            w.props.contract_container_id == props.contract_container_id,
            w.props.place_x == props.place_x,
            w.props.place_y == props.place_y,
            w.props.place_width == props.place_width,
            w.props.enabled,
            w.props.style is None,
            w.props.anchor_id is None,
            !w.modal,
            !w.is_open,
            w.handle is None,
    {
        SignatureWidget {
            props: SignatureProps {
                contract_container_id: props.contract_container_id,
                place_x: props.place_x,
                place_y: props.place_y,
                place_width: props.place_width,
                enabled: true,
                style: None,
                anchor_id: None,
            },
            modal: false,
            is_open: false,
            handle: None,
        }
    }

    /// The host's enablement decision, passed in on every render.
    pub fn set_enabled(&mut self, enabled: bool)
        ensures
            *final(self) == (SignatureWidget {
                props: SignatureProps { enabled, ..old(self).props },
                ..*old(self)
            }),
    {
        self.props.enabled = enabled;
    }

    /// Opens the drawing UI with the surface handle the host built, or with
    /// none when surface acquisition failed — the widget is then open but
    /// inert: signing will simply do nothing.
    pub fn open(&mut self, handle: Option<SignatureHandle>)
        ensures
            *final(self) == (SignatureWidget { is_open: true, handle, ..*old(self) }),
    {
        self.is_open = true;
        self.handle = handle;
    }

    /// Closes the drawing UI: releases the subscriptions and discards the
    /// surface state. Drawn content does not survive a close. The returned
    /// kinds are what the host must now unregister.
    pub fn close(&mut self) -> (removed: Vec<ListenerKind>)
        ensures
            *final(self) == (SignatureWidget { is_open: false, handle: None, ..*old(self) }),
            removed@ == (match old(self).handle {
                Some(h) => if !h.listeners.released {
                    h.listeners.spec_active_kinds()
                } else {
                    Seq::<ListenerKind>::empty()
                },
                None => Seq::<ListenerKind>::empty(),
            }),
    {
        let mut removed: Vec<ListenerKind> = Vec::new();
        match &mut self.handle {
            Some(h) => {
                removed = h.release();
            },
            None => {},
        }
        self.handle = None;
        self.is_open = false;
        removed
    }

    /// Pointer press on the surface, in surface-local pixels.
    pub fn pointer_down(&mut self, x: i32, y: i32)
        ensures
            *final(self) == (match old(self).handle {
                Some(h) => (SignatureWidget {
                    handle: Some(
                        SignatureHandle { pad: pad_step(h.pad, PadEvent::Down(x, y)), ..h },
                    ),
                    ..*old(self)
                }),
                None => *old(self),
            }),
    {
        match &mut self.handle {
            Some(h) => h.pad.pointer_down(x, y),
            None => {},
        }
    }

    /// Pointer move on the surface; hands back the segment the host must
    /// draw, when a stroke is in progress.
    pub fn pointer_move(&mut self, x: i32, y: i32) -> (seg: Option<Segment>)
        ensures
            *final(self) == (match old(self).handle {
                Some(h) => (SignatureWidget {
                    handle: Some(
                        SignatureHandle { pad: pad_step(h.pad, PadEvent::Move(x, y)), ..h },
                    ),
                    ..*old(self)
                }),
                None => *old(self),
            }),
            seg == (match old(self).handle {
                Some(h) => if h.pad.drawing {
                    Some(
                        Segment { from_x: h.pad.last_x, from_y: h.pad.last_y, to_x: x, to_y: y },
                    )
                } else {
                    None
                },
                None => None::<Segment>,
            }),
    {
        match &mut self.handle {
            Some(h) => h.pad.pointer_move(x, y),
            None => None,
        }
    }

    /// Pointer release, or the pointer leaving the surface.
    pub fn pointer_up(&mut self)
        ensures
            *final(self) == (match old(self).handle {
                Some(h) => (SignatureWidget {
                    handle: Some((SignatureHandle { pad: pad_step(h.pad, PadEvent::Up), ..h })),
                    ..*old(self)
                }),
                None => *old(self),
            }),
    {
        match &mut self.handle {
            Some(h) => h.pad.pointer_up(),
            None => {},
        }
    }

    /// Erases the surface model. Does not change the open state or the
    /// in-progress flag.
    pub fn clear(&mut self)
        ensures
            *final(self) == (match old(self).handle {
                Some(h) => (SignatureWidget {
                    handle: Some(
                        (SignatureHandle { pad: (SignaturePad { empty: true, ..h.pad }), ..h }),
                    ),
                    ..*old(self)
                }),
                None => *old(self),
            }),
    {
        match &mut self.handle {
            Some(h) => h.clear(),
            None => {},
        }
    }

    /// The sign action: a no-op unless the host permits signing, the
    /// drawing UI is open and ink is on the surface. Otherwise the exported
    /// embedded-image string `data_url` is placed into the container at the
    /// anchor-resolved (or fallback) coordinates, the container is scrolled
    /// to just above the placement, a configured anchor element is hidden,
    /// and — for a modal host — the drawing UI closes. The outcome carries
    /// the notification payload and the subscriptions to unregister.
    pub fn sign(&mut self, doc: &mut HostDoc, data_url: &str, anchor: Option<AnchorGeometry>) -> (r:
        SignOutcome)
        ensures
            !old(self).can_sign() ==> r is NotSigned && *final(self) == *old(self) && *final(doc)
                == *old(doc),
            old(self).can_sign() ==> (r matches SignOutcome::Signed(p) && {
                &&& p.x as int == spec_resolve(
                    anchor,
                    old(self).props.place_x as int,
                    old(self).props.place_y as int,
                ).0
                &&& p.y as int == spec_resolve(
                    anchor,
                    old(self).props.place_x as int,
                    old(self).props.place_y as int,
                ).1
                &&& p.width == old(self).props.place_width
                &&& p.data_url@ == data_url@
                &&& p.placed == (old(doc)@.container is Some)
                &&& p.scroll_top as int == clamp_i32(p.y - 40)
                &&& p.anchor_hidden == (old(self).props.anchor_id is Some && old(
                    doc,
                )@.anchor_style is Some)
                &&& final(doc)@ == spec_sign_doc(
                    old(doc)@,
                    data_url@,
                    p.x as int,
                    p.y as int,
                    old(self).props.place_width as int,
                    old(self).props.anchor_id is Some,
                )
                &&& old(self).modal ==> *final(self) == (SignatureWidget {
                    is_open: false,
                    handle: None,
                    ..*old(self)
                }) && p.released@ == (match old(self).handle {
                    Some(h) => if !h.listeners.released {
                        h.listeners.spec_active_kinds()
                    } else {
                        Seq::<ListenerKind>::empty()
                    },
                    None => Seq::<ListenerKind>::empty(),
                })
                &&& !old(self).modal ==> *final(self) == *old(self) && p.released@ == Seq::<
                    ListenerKind,
                >::empty()
            }),
    {
        if !self.props.enabled || !self.is_open {
            return SignOutcome::NotSigned;
        }
        let has_ink = match &self.handle {
            Some(h) => !h.pad.is_empty(),
            None => false,
        };
        if !has_ink {
            return SignOutcome::NotSigned;
        }
        let (x, y) = PlacementResolver::resolve(anchor, self.props.place_x, self.props.place_y);
        let place_result = DomBindings::place_signature_img(
            doc,
            self.props.contract_container_id.as_str(),
            data_url,
            x,
            y,
            self.props.place_width,
        );
        let placed = place_result.is_ok();
        let scroll_top: i32 = if y >= i32::MIN + 40 {
            y - 40
        } else {
            i32::MIN
        };
        match &mut doc.container {
            Some(c) => {
                c.scroll_top = scroll_top;
            },
            None => {},
        }
        let mut anchor_hidden = false;
        if self.props.anchor_id.is_some() {
            match &mut doc.anchor_style {
                Some(st) => {
                    *st = String::from_str("display:none");
                    anchor_hidden = true;
                },
                None => {},
            }
        }
        let width = self.props.place_width;
        let mut released: Vec<ListenerKind> = Vec::new();
        if self.modal {
            released = self.close();
        }
        SignOutcome::Signed(
            SignedPlacement {
                x,
                y,
                width,
                placed,
                scroll_top,
                anchor_hidden,
                data_url: String::from_str(data_url),
                released,
            },
        )
    }
}

} // verus!
