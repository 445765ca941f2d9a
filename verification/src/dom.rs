//! The widget's model of the host document: the configured container
//! element, the single placed signature image inside it, and the optional
//! anchor element. The host resolves element identifiers and applies the
//! computed attribute values; this module decides them, and proves that
//! repeated placement never accumulates a second image.

use vstd::prelude::*;
use crate::error::SigError;
use crate::placement::AnchorGeometry;
use crate::placement::PlacementResolver;
use crate::placement::spec_resolve;
use crate::style::merge_decl;
use crate::style::normalize_style;
use crate::style::set_decl;
use crate::style::spec_merge_decl;
use crate::style::spec_normalize;
use crate::style::spec_set_decl;
use crate::text::i32_to_string;
use crate::text::spec_dec_int;

verus! {

/// What the placed image element carries, at the specification level.
pub ghost struct ImgView {
    pub src: Seq<char>,
    pub style: Seq<char>,
}

/// What the container element carries, at the specification level.
pub ghost struct ContainerView {
    pub style: Seq<char>,
    pub scroll_top: int,
    pub img: Option<ImgView>,
}

/// What the modeled part of the host document carries, at the
/// specification level.
pub ghost struct DocView {
    pub container: Option<ContainerView>,
    pub anchor_style: Option<Seq<char>>,
}

/// The placed signature image element: its `src` and its inline style. The
/// element bears a fixed reuse identifier in the host document, so there is
/// never more than one.
pub struct PlacedImg {
    pub src: String,
    pub style: String,
}

impl View for PlacedImg {
    type V = ImgView;

    open spec fn view(&self) -> ImgView {
        ImgView { src: self.src@, style: self.style@ }
    }
}

/// The container element the widget places into, as far as the widget
/// touches it: its inline style, its vertical scroll offset, and the placed
/// image, if any.
pub struct ContainerEl {
    pub style: String,
    pub scroll_top: i32,
    pub img: Option<PlacedImg>,
}

impl View for ContainerEl {
    type V = ContainerView;

    open spec fn view(&self) -> ContainerView {
        ContainerView {
            style: self.style@,
            scroll_top: self.scroll_top as int,
            img: match self.img {
                Option::Some(im) => Some(im@),
                Option::None => None,
            },
        }
    }
}

/// The modeled part of the host document. `container` is the element the
/// configured container identifier resolves to (`None` when it does not
/// resolve); `anchor_style` is the style attribute of the element the
/// configured anchor identifier resolves to, when it does.
pub struct HostDoc {
    pub container: Option<ContainerEl>,
    pub anchor_style: Option<String>,
}

impl View for HostDoc {
    type V = DocView;

    open spec fn view(&self) -> DocView {
        DocView {
            container: match self.container {
                Option::Some(c) => Some(c@),
                Option::None => None,
            },
            anchor_style: match self.anchor_style {
                Option::Some(s) => Some(s@),
                Option::None => None,
            },
        }
    }
}

impl DocView {
    /// How many placed signature images the document holds.
    pub open spec fn img_count(self) -> int {
        match self.container {
            Some(c) => if c.img is Some {
                1
            } else {
                0
            },
            None => 0,
        }
    }
}

/// `v` as a CSS pixel length, `-12px` style.
pub open spec fn spec_px(v: int) -> Seq<char> {
    spec_dec_int(v) + "px"@
}

/// `v` as a CSS pixel length string.
pub fn px(v: i32) -> (r: String)
    ensures
        r@ == spec_px(v as int),
{
    let mut s = i32_to_string(v);
    s.append("px");
    s
}

/// The placed image's inline style after a placement over `base`: the
/// position keys the widget owns are set to the new coordinates, while
/// static keys already present are kept.
pub open spec fn spec_img_style(base: Seq<char>, x: int, y: int, w: int) -> Seq<char> {
    let s1 = spec_merge_decl(spec_normalize(base), "position"@, "absolute"@);
    let s2 = spec_set_decl(s1, "left"@, spec_px(x));
    let s3 = spec_set_decl(s2, "top"@, spec_px(y));
    let s4 = spec_set_decl(s3, "width"@, spec_px(w));
    let s5 = spec_merge_decl(s4, "height"@, "auto"@);
    let s6 = spec_merge_decl(s5, "z-index"@, "1"@);
    spec_merge_decl(s6, "pointer-events"@, "none"@)
}

/// The document after placing `data_url` at `(x, y)` with width `w`: the
/// container becomes a positioning context, and the single image element is
/// updated in place or created. Without a container the document is
/// unchanged.
pub open spec fn spec_place(d: DocView, data_url: Seq<char>, x: int, y: int, w: int) -> DocView {
    match d.container {
        None => d,
        Some(c) => (DocView {
            container: Some(
                ContainerView {
                    style: spec_merge_decl(spec_normalize(c.style), "position"@, "relative"@),
                    scroll_top: c.scroll_top,
                    img: Some(
                        ImgView {
                            src: data_url,
                            style: spec_img_style(
                                match c.img {
                                    Some(im) => im.style,
                                    None => Seq::empty(),
                                },
                                x,
                                y,
                                w,
                            ),
                        },
                    ),
                },
            ),
            ..d
        }),
    }
}

/// Stateless host-document mutations. All widget state lives elsewhere;
/// these act on the document model alone.
pub struct DomBindings;

impl DomBindings {
    /// Inserts or updates the single placed signature image inside the
    /// container: the container becomes a positioning context, and the
    /// image element bearing the fixed reuse identifier has its source and
    /// position updated in place, or is created and appended once. Fails
    /// only when the container identifier does not resolve.
    pub fn place_signature_img(
        doc: &mut HostDoc,
        container_id: &str,
        data_url: &str,
        x: i32,
        y: i32,
        width: i32,
    ) -> (r: Result<(), SigError>)
        ensures
            r is Ok <==> old(doc)@.container is Some,
            r is Ok ==> final(doc)@ == spec_place(
                old(doc)@,
                data_url@,
                x as int,
                y as int,
                width as int,
            ),
            r matches Err(e) ==> {
                &&& *final(doc) == *old(doc)
                &&& e matches SigError::ElementNotFound(id) && id@ == container_id@
            },
    {
        match &mut doc.container {
            None => Err(SigError::ElementNotFound(String::from_str(container_id))),
            Some(c) => {
                let cont_style = merge_decl(
                    normalize_style(c.style.as_str()).as_str(),
                    "position",
                    "relative",
                );
                c.style = cont_style;
                let base = match &c.img {
                    Some(im) => im.style.clone(),
                    None => String::new(),
                };
                let px_x = px(x);
                let px_y = px(y);
                let px_w = px(width);
                let s1 = merge_decl(normalize_style(base.as_str()).as_str(), "position", "absolute");
                let s2 = set_decl(s1.as_str(), "left", px_x.as_str());
                let s3 = set_decl(s2.as_str(), "top", px_y.as_str());
                let s4 = set_decl(s3.as_str(), "width", px_w.as_str());
                let s5 = merge_decl(s4.as_str(), "height", "auto");
                let s6 = merge_decl(s5.as_str(), "z-index", "1");
                let s7 = merge_decl(s6.as_str(), "pointer-events", "none");
                c.img = Some(PlacedImg { src: String::from_str(data_url), style: s7 });
                Ok(())
            },
        }
    }

    /// Placement by anchor: resolves the coordinates from measured anchor
    /// geometry, falling back to `(fallback_x, fallback_y)` when there is
    /// none, then places as `place_signature_img` does.
    pub fn place_signature_img_by_anchor(
        doc: &mut HostDoc,
        container_id: &str,
        data_url: &str,
        anchor: Option<AnchorGeometry>,
        fallback_x: i32,
        fallback_y: i32,
        width: i32,
    ) -> (r: Result<(), SigError>)
        ensures
            r is Ok <==> old(doc)@.container is Some,
            r is Ok ==> final(doc)@ == spec_place(
                old(doc)@,
                data_url@,
                spec_resolve(anchor, fallback_x as int, fallback_y as int).0,
                spec_resolve(anchor, fallback_x as int, fallback_y as int).1,
                width as int,
            ),
            r matches Err(e) ==> {
                &&& *final(doc) == *old(doc)
                &&& e matches SigError::ElementNotFound(id) && id@ == container_id@
            },
    {
        let (x, y) = PlacementResolver::resolve(anchor, fallback_x, fallback_y);
        Self::place_signature_img(doc, container_id, data_url, x, y, width)
    }
}

/// Repeated placement updates the single image element in place: after two
/// placements the document holds exactly one placed image, and it bears the
/// second data URL.
pub proof fn lemma_single_placed_image(
    d: DocView,
    u1: Seq<char>,
    u2: Seq<char>,
    x1: int,
    y1: int,
    w1: int,
    x2: int,
    y2: int,
    w2: int,
)
    requires
        d.container is Some,
    ensures
        ({
            let d1 = spec_place(d, u1, x1, y1, w1);
            let d2 = spec_place(d1, u2, x2, y2, w2);
            d1.img_count() == 1 && d2.img_count() == 1 && d2.container.unwrap().img.unwrap().src
                == u2
        }),
{
}

} // verus!
