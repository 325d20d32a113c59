use rxcanvas::scaffold::{build_element, mount_app, ElementSpec};
use rxcanvas::size::Size;

fn attr_value<'a>(e: &'a ElementSpec, key: &str) -> Option<&'a str> {
    for (k, v) in &e.attrs {
        if k == key {
            return Some(v);
        }
    }
    None
}

#[test]
fn builder_sets_tag_attrs_and_text() {
    let attrs = vec![
        ("id".to_string(), "x".to_string()),
        ("class".to_string(), "y".to_string()),
    ];
    let e = build_element("div", attrs, Some("hello".to_string()));
    assert_eq!(e.tag, "div");
    assert_eq!(e.attrs.len(), 2);
    assert_eq!(attr_value(&e, "id"), Some("x"));
    assert_eq!(attr_value(&e, "class"), Some("y"));
    assert_eq!(e.text.as_deref(), Some("hello"));
    assert!(e.children.is_empty());
}

#[test]
fn page_has_title_and_panel() {
    let page = mount_app(Size::start());
    assert_eq!(page.len(), 2);

    let title = &page[0];
    assert_eq!(title.tag, "h1");
    assert_eq!(title.text.as_deref(), Some("DOT"));
    assert!(title.attrs.is_empty());
    assert!(title.children.is_empty());

    let panel = &page[1];
    assert_eq!(panel.tag, "div");
    assert_eq!(attr_value(panel, "id"), Some("rxcanvas"));
    assert_eq!(panel.children.len(), 4);
}

#[test]
fn panel_holds_readout_slider_label_and_canvas() {
    let page = mount_app(Size::start());
    let panel = &page[1];

    let span = &panel.children[0];
    assert_eq!(span.tag, "span");
    assert_eq!(attr_value(span, "id"), Some("size-output"));
    assert_eq!(span.text.as_deref(), Some("50"));

    let input = &panel.children[1];
    assert_eq!(input.tag, "input");
    assert_eq!(input.attrs.len(), 5);
    assert_eq!(attr_value(input, "id"), Some("size"));
    assert_eq!(attr_value(input, "type"), Some("range"));
    assert_eq!(attr_value(input, "min"), Some("5"));
    assert_eq!(attr_value(input, "max"), Some("100"));
    assert_eq!(attr_value(input, "step"), Some("5"));
    assert!(input.text.is_none());

    let label = &panel.children[2];
    assert_eq!(label.tag, "label");
    assert_eq!(attr_value(label, "for"), Some("size"));
    assert_eq!(label.text.as_deref(), Some("- Size"));

    let paragraph = &panel.children[3];
    assert_eq!(paragraph.tag, "p");
    assert!(paragraph.attrs.is_empty());
    assert_eq!(paragraph.children.len(), 1);

    let canvas = &paragraph.children[0];
    assert_eq!(canvas.tag, "canvas");
    assert_eq!(attr_value(canvas, "id"), Some("dot-canvas"));
    assert!(canvas.children.is_empty());
}

#[test]
fn initial_readout_matches_the_default_size() {
    let page = mount_app(Size::new(5).unwrap());
    let span = &page[1].children[0];
    assert_eq!(span.text.as_deref(), Some("5"));
}
