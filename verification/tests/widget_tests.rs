//! Tests for the drawing state machine, placement, inline-style editing,
//! listener lifecycle, host-document placement, and the widget composition.

use signature_pad::dom::ContainerEl;
use signature_pad::dom::DomBindings;
use signature_pad::dom::HostDoc;
use signature_pad::error::SigError;
use signature_pad::export::png_data_url;
use signature_pad::listeners::ListenerKind;
use signature_pad::listeners::ListenerSet;
use signature_pad::placement::AnchorGeometry;
use signature_pad::placement::PlacementResolver;
use signature_pad::stroke::SignaturePad;
use signature_pad::style;
use signature_pad::widget::LProps;
use signature_pad::widget::SignOutcome;
use signature_pad::widget::SignatureHandle;
use signature_pad::widget::SignatureProps;
use signature_pad::widget::SignatureStyle;
use signature_pad::widget::SignatureWidget;

fn empty_doc_with_container() -> HostDoc {
    HostDoc {
        container: Some(ContainerEl {
            style: String::new(),
            scroll_top: 0,
            img: None,
        }),
        anchor_style: None,
    }
}

fn default_props() -> SignatureProps {
    SignatureProps {
        contract_container_id: "contract-box".to_string(),
        place_x: 120,
        place_y: 350,
        place_width: 240,
        enabled: true,
        style: None,
        anchor_id: None,
    }
}

#[test]
fn stroke_marks_surface_nonempty() {
    let mut pad = SignaturePad::new(500, 200);
    assert!(pad.is_empty());
    pad.pointer_down(10, 10);
    assert!(pad.is_empty(), "a press alone draws nothing");
    let seg = pad.pointer_move(40, 40).expect("a move while drawing yields a segment");
    assert_eq!((seg.from_x, seg.from_y, seg.to_x, seg.to_y), (10, 10, 40, 40));
    assert!(!pad.is_empty());
    pad.pointer_up();
    assert!(!pad.is_empty(), "ink stays after the stroke ends");
    pad.pointer_down(50, 50);
    pad.pointer_up();
    assert!(!pad.is_empty(), "ink stays across further strokes");
}

#[test]
fn move_without_press_is_a_no_op() {
    let mut pad = SignaturePad::new(500, 200);
    assert_eq!(pad.pointer_move(40, 40), None);
    assert!(pad.is_empty());
}

#[test]
fn segments_chain_between_samples() {
    let mut pad = SignaturePad::new(500, 200);
    pad.pointer_down(1, 2);
    let s1 = pad.pointer_move(3, 4).unwrap();
    let s2 = pad.pointer_move(5, 6).unwrap();
    assert_eq!((s1.from_x, s1.from_y, s1.to_x, s1.to_y), (1, 2, 3, 4));
    assert_eq!((s2.from_x, s2.from_y, s2.to_x, s2.to_y), (3, 4, 5, 6));
}

#[test]
fn clear_resets_empty_and_keeps_drawing_state() {
    let mut pad = SignaturePad::new(500, 200);
    pad.pointer_down(10, 10);
    pad.pointer_move(40, 40);
    pad.clear();
    assert!(pad.is_empty());
    // `clear` does not end the stroke: the next move still draws.
    let seg = pad.pointer_move(60, 60);
    assert!(seg.is_some());
    assert!(!pad.is_empty());
    // Clearing an already-empty, idle surface is harmless.
    let mut idle = SignaturePad::new(10, 10);
    idle.clear();
    assert!(idle.is_empty());
    assert_eq!(idle.pointer_move(1, 1), None);
}

#[test]
fn end_without_begin_is_a_no_op() {
    let mut pad = SignaturePad::new(500, 200);
    pad.pointer_up();
    pad.pointer_up();
    assert!(pad.is_empty());
    assert_eq!(pad.pointer_move(5, 5), None);
}

#[test]
fn resolve_without_anchor_returns_fallback() {
    assert_eq!(PlacementResolver::resolve(None, 120, 350), (120, 350));
    assert_eq!(PlacementResolver::resolve(None, -7, 0), (-7, 0));
}

#[test]
fn resolve_with_anchor_geometry() {
    let g = AnchorGeometry {
        anchor_left: 50,
        anchor_top: 200,
        container_left: 0,
        container_top: 0,
        scroll_left: 0,
        scroll_top: 30,
    };
    assert_eq!(PlacementResolver::resolve(Some(g), 120, 350), (50, 230));
    let shifted = AnchorGeometry {
        anchor_left: 300,
        anchor_top: 500,
        container_left: 100,
        container_top: 250,
        scroll_left: 15,
        scroll_top: 40,
    };
    assert_eq!(PlacementResolver::resolve(Some(shifted), 0, 0), (215, 290));
}

#[test]
fn resolve_saturates_on_extreme_geometry() {
    let g = AnchorGeometry {
        anchor_left: i32::MAX,
        anchor_top: i32::MIN,
        container_left: i32::MIN,
        container_top: i32::MAX,
        scroll_left: 0,
        scroll_top: 0,
    };
    assert_eq!(PlacementResolver::resolve(Some(g), 0, 0), (i32::MAX, i32::MIN));
}

#[test]
fn style_merge_keeps_existing_declarations() {
    assert_eq!(style::merge_decl("color:red;", "color", "blue"), "color:red;");
    assert_eq!(
        style::merge_decl("color:red;", "position", "relative"),
        "color:red;position:relative;"
    );
    assert_eq!(style::merge_decl("", "position", "relative"), "position:relative;");
}

#[test]
fn style_set_replaces_value_in_place() {
    assert_eq!(style::set_decl("left:5px;top:2px;", "left", "9px"), "left:9px;top:2px;");
    assert_eq!(style::set_decl("top:2px;left:5px;", "left", "9px"), "top:2px;left:9px;");
    assert_eq!(style::set_decl("left:5px", "left", "9px"), "left:9px;");
    assert_eq!(style::set_decl("top:2px;", "left", "9px"), "top:2px;left:9px;");
}

#[test]
fn style_normalize_trims_and_closes() {
    assert_eq!(style::normalize_style("  color:red  "), "color:red;");
    assert_eq!(style::normalize_style("color:red;"), "color:red;");
    assert_eq!(style::normalize_style(""), "");
    assert_eq!(style::normalize_style("   "), "");
}

#[test]
fn style_merge_inline_appends_missing_pairs_in_order() {
    let pairs = vec![
        ("position".to_string(), "absolute".to_string()),
        ("color".to_string(), "red".to_string()),
    ];
    assert_eq!(
        style::merge_inline_style("color:blue", &pairs),
        "color:blue;position:absolute;"
    );
}

#[test]
fn listeners_attach_all_or_nothing() {
    let set = ListenerSet::attach(true, true, true, true).unwrap();
    assert!(set.down && set.mv && set.up && set.leave && !set.released);

    let f = ListenerSet::attach(true, true, false, true).unwrap_err();
    assert_eq!(f.rollback, vec![ListenerKind::Down, ListenerKind::Move]);
    match f.error {
        SigError::OpFailed(m) => assert_eq!(m, "addEventListener(pointerup)"),
        other => panic!("unexpected error: {:?}", other),
    }

    let f = ListenerSet::attach(false, true, true, true).unwrap_err();
    assert!(f.rollback.is_empty());
}

#[test]
fn listener_release_is_idempotent() {
    let mut set = ListenerSet::attach(true, true, true, true).unwrap();
    let removed = set.release();
    assert_eq!(
        removed,
        vec![ListenerKind::Down, ListenerKind::Move, ListenerKind::Up, ListenerKind::Leave]
    );
    let removed_again = set.release();
    assert!(removed_again.is_empty());
    let removed_thrice = set.release();
    assert!(removed_thrice.is_empty());
}

#[test]
fn place_updates_single_image_in_place() {
    let mut doc = empty_doc_with_container();
    let r = DomBindings::place_signature_img(&mut doc, "contract-box", "url-one", 120, 350, 240);
    assert!(r.is_ok());
    {
        let c = doc.container.as_ref().unwrap();
        assert!(c.style.contains("position:relative;"));
        let img = c.img.as_ref().unwrap();
        assert_eq!(img.src, "url-one");
        assert!(img.style.contains("position:absolute;"));
        assert!(img.style.contains("left:120px;"));
        assert!(img.style.contains("top:350px;"));
        assert!(img.style.contains("width:240px;"));
        assert!(img.style.contains("height:auto;"));
        assert!(img.style.contains("z-index:1;"));
        assert!(img.style.contains("pointer-events:none;"));
    }
    // A second placement updates the same element: new source, new
    // position, still exactly one image.
    let r = DomBindings::place_signature_img(&mut doc, "contract-box", "url-two", 7, 8, 240);
    assert!(r.is_ok());
    let c = doc.container.as_ref().unwrap();
    let img = c.img.as_ref().unwrap();
    assert_eq!(img.src, "url-two");
    assert!(img.style.contains("left:7px;"));
    assert!(img.style.contains("top:8px;"));
    assert!(!img.style.contains("left:120px;"));
    assert!(!img.style.contains("top:350px;"));
}

#[test]
fn place_without_container_fails() {
    let mut doc = HostDoc { container: None, anchor_style: None };
    let r = DomBindings::place_signature_img(&mut doc, "contract-box", "url", 1, 2, 3);
    assert_eq!(r, Err(SigError::ElementNotFound("contract-box".to_string())));
    assert!(doc.container.is_none());
}

#[test]
fn place_by_anchor_uses_geometry_or_fallback() {
    let g = AnchorGeometry {
        anchor_left: 50,
        anchor_top: 200,
        container_left: 0,
        container_top: 0,
        scroll_left: 0,
        scroll_top: 30,
    };
    let mut doc = empty_doc_with_container();
    DomBindings::place_signature_img_by_anchor(&mut doc, "c", "u", Some(g), 120, 350, 240)
        .unwrap();
    let img_style = &doc.container.as_ref().unwrap().img.as_ref().unwrap().style;
    assert!(img_style.contains("left:50px;"));
    assert!(img_style.contains("top:230px;"));

    let mut doc = empty_doc_with_container();
    DomBindings::place_signature_img_by_anchor(&mut doc, "c", "u", None, 120, 350, 240).unwrap();
    let img_style = &doc.container.as_ref().unwrap().img.as_ref().unwrap().style;
    assert!(img_style.contains("left:120px;"));
    assert!(img_style.contains("top:350px;"));
}

#[test]
fn signature_style_default_values() {
    let s = SignatureStyle::default();
    assert_eq!(s.border, "2px dashed #888");
    assert_eq!(s.background, "#fff");
    assert_eq!(s.width, 520);
    assert_eq!(s.height, 220);
}

#[test]
fn handle_creation_reports_rollback() {
    let h = SignatureHandle::new(500, 200, true, true, true, true).unwrap();
    assert!(h.pad.is_empty());
    assert_eq!(h.pad.width(), 500);
    assert_eq!(h.pad.height(), 200);
    assert!(h.listeners.down);

    let f = SignatureHandle::new(500, 200, true, false, true, true).unwrap_err();
    assert_eq!(f.rollback, vec![ListenerKind::Down]);
    match f.error {
        SigError::OpFailed(m) => assert_eq!(m, "addEventListener(pointermove)"),
        other => panic!("unexpected error: {:?}", other),
    }
}

#[test]
fn widget_sign_scenario_places_and_notifies() {
    // Open, draw one stroke, sign with signing permitted and no anchor: the
    // document gains one placed image at the fallback coordinates with the
    // configured width, and the notification carries the data URL.
    let mut widget = SignatureWidget::new(default_props(), true);
    let handle = SignatureHandle::new(500, 200, true, true, true, true).unwrap();
    widget.open(Some(handle));
    widget.pointer_down(10, 10);
    widget.pointer_move(40, 40).expect("drawing stroke yields a segment");
    widget.pointer_up();

    let mut doc = empty_doc_with_container();
    let url = png_data_url(&vec![137, 80, 78, 71, 13, 10, 26, 10]);
    assert!(url.starts_with("data:image/png;base64,"));
    match widget.sign(&mut doc, &url, None) {
        SignOutcome::Signed(p) => {
            assert_eq!((p.x, p.y, p.width), (120, 350, 240));
            assert!(p.placed);
            assert_eq!(p.scroll_top, 310);
            assert!(!p.anchor_hidden);
            assert_eq!(p.data_url, url);
            assert_eq!(
                p.released,
                vec![
                    ListenerKind::Down,
                    ListenerKind::Move,
                    ListenerKind::Up,
                    ListenerKind::Leave
                ]
            );
        }
        SignOutcome::NotSigned => panic!("sign should have proceeded"),
    }
    // Modal host: the widget closed and discarded its surface.
    assert!(!widget.is_open);
    assert!(widget.handle.is_none());
    // Exactly one placed image, bearing the exported data URL.
    let c = doc.container.as_ref().unwrap();
    assert_eq!(c.scroll_top, 310);
    let img = c.img.as_ref().unwrap();
    assert_eq!(img.src, url);
    assert!(img.style.contains("left:120px;"));
    assert!(img.style.contains("top:350px;"));
    assert!(img.style.contains("width:240px;"));
}

#[test]
fn widget_sign_requires_enablement_and_ink() {
    // Gate off.
    let mut props = default_props();
    props.enabled = false;
    let mut widget = SignatureWidget::new(props, true);
    let handle = SignatureHandle::new(500, 200, true, true, true, true).unwrap();
    widget.open(Some(handle));
    widget.pointer_down(10, 10);
    widget.pointer_move(40, 40);
    let mut doc = empty_doc_with_container();
    assert!(matches!(widget.sign(&mut doc, "data:...", None), SignOutcome::NotSigned));
    assert!(doc.container.as_ref().unwrap().img.is_none());

    // Gate on, but nothing drawn.
    let mut widget = SignatureWidget::new(default_props(), true);
    let handle = SignatureHandle::new(500, 200, true, true, true, true).unwrap();
    widget.open(Some(handle));
    assert!(matches!(widget.sign(&mut doc, "data:...", None), SignOutcome::NotSigned));
    assert!(widget.is_open, "a refused sign leaves the widget open");

    // Cleared content counts as nothing drawn.
    widget.pointer_down(10, 10);
    widget.pointer_move(40, 40);
    widget.clear();
    assert!(matches!(widget.sign(&mut doc, "data:...", None), SignOutcome::NotSigned));

    // A widget that never opened cannot sign.
    let mut closed = SignatureWidget::new(default_props(), true);
    assert!(matches!(closed.sign(&mut doc, "data:...", None), SignOutcome::NotSigned));
}

#[test]
fn widget_repeated_sign_keeps_single_image() {
    // An always-visible host signs twice; the single image bears the
    // latest data.
    let mut widget = SignatureWidget::from_lprops(LProps {
        contract_container_id: "contract-box".to_string(),
        place_x: 10,
        place_y: 20,
        place_width: 100,
    });
    let handle = SignatureHandle::new(500, 200, true, true, true, true).unwrap();
    widget.open(Some(handle));
    widget.pointer_down(1, 1);
    widget.pointer_move(2, 2);
    widget.pointer_up();

    let mut doc = empty_doc_with_container();
    let url1 = png_data_url(&vec![1, 2, 3]);
    let url2 = png_data_url(&vec![4, 5, 6, 7]);
    assert!(matches!(widget.sign(&mut doc, &url1, None), SignOutcome::Signed(_)));
    assert!(widget.is_open, "an always-visible host stays open");
    assert!(matches!(widget.sign(&mut doc, &url2, None), SignOutcome::Signed(_)));
    let c = doc.container.as_ref().unwrap();
    let img = c.img.as_ref().unwrap();
    assert_eq!(img.src, url2);
    assert_ne!(url1, url2);
}

#[test]
fn widget_sign_hides_configured_anchor() {
    let mut props = default_props();
    props.anchor_id = Some("sign-here".to_string());
    let mut widget = SignatureWidget::new(props, true);
    let handle = SignatureHandle::new(500, 200, true, true, true, true).unwrap();
    widget.open(Some(handle));
    widget.pointer_down(10, 10);
    widget.pointer_move(40, 40);

    let mut doc = empty_doc_with_container();
    doc.anchor_style = Some("color:red;".to_string());
    let g = AnchorGeometry {
        anchor_left: 50,
        anchor_top: 200,
        container_left: 0,
        container_top: 0,
        scroll_left: 0,
        scroll_top: 30,
    };
    let url = png_data_url(&vec![9, 9, 9]);
    match widget.sign(&mut doc, &url, Some(g)) {
        SignOutcome::Signed(p) => {
            assert_eq!((p.x, p.y), (50, 230));
            assert!(p.anchor_hidden);
            assert_eq!(p.scroll_top, 190);
        }
        SignOutcome::NotSigned => panic!("sign should have proceeded"),
    }
    assert_eq!(doc.anchor_style.as_deref(), Some("display:none"));
}

#[test]
fn widget_enablement_can_change_per_render() {
    let mut widget = SignatureWidget::new(default_props(), true);
    let handle = SignatureHandle::new(500, 200, true, true, true, true).unwrap();
    widget.open(Some(handle));
    widget.pointer_down(10, 10);
    widget.pointer_move(40, 40);
    widget.set_enabled(false);
    let mut doc = empty_doc_with_container();
    assert!(matches!(widget.sign(&mut doc, "data:...", None), SignOutcome::NotSigned));
    widget.set_enabled(true);
    let url = png_data_url(&vec![1]);
    assert!(matches!(widget.sign(&mut doc, &url, None), SignOutcome::Signed(_)));
}

#[test]
fn widget_close_releases_once() {
    let mut widget = SignatureWidget::new(default_props(), true);
    let handle = SignatureHandle::new(500, 200, true, true, true, true).unwrap();
    widget.open(Some(handle));
    let removed = widget.close();
    assert_eq!(removed.len(), 4);
    assert!(!widget.is_open);
    // Closing again finds nothing to release.
    let removed = widget.close();
    assert!(removed.is_empty());
}
