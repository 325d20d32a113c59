//! The static page structure, built as plain data: a tree of element
//! descriptions with tag, attribute mapping and optional text. The host
//! turns each node into a real element one attribute at a time; everything
//! it must create — the identifiers the controller looks up, the slider's
//! range attributes, the initial readout text — is fixed here by contract.

use crate::decimal::spec_digits;
use crate::size::Size;
use vstd::prelude::*;

verus! {

/// One node of the static page: an element with its tag, its attribute
/// name/value pairs, optional text content, and child elements in order.
pub struct ElementSpec {
    /// Element tag, such as `div` or `canvas`.
    pub tag: String,
    /// Attribute mapping; keys are unique, order carries no meaning.
    pub attrs: Vec<(String, String)>,
    /// Text content, appended as a single text node when present.
    pub text: Option<String>,
    /// Child elements, appended in order.
    pub children: Vec<ElementSpec>,
}

/// The attribute list is a mapping: no key occurs twice.
pub open spec fn attr_keys_unique(attrs: Seq<(String, String)>) -> bool {
    forall|i: int, j: int| 0 <= i < j < attrs.len() ==> (#[trigger] attrs[i]).0@ != (
    #[trigger] attrs[j]).0@
}

/// The element carries the attribute `k` with value `v`.
pub open spec fn has_attr(e: ElementSpec, k: Seq<char>, v: Seq<char>) -> bool {
    exists|i: int|
        0 <= i < e.attrs@.len() && (#[trigger] e.attrs@[i]).0@ == k && e.attrs@[i].1@ == v
}

/// Builds a childless element from a tag, an attribute mapping (keys
/// unique, order irrelevant) and optional text content.
pub fn build_element(tag: &str, attrs: Vec<(String, String)>, text: Option<String>) -> (r:
    ElementSpec)
    requires
        attr_keys_unique(attrs@),
    ensures
        r.tag@ == tag@,
        r.attrs == attrs,
        r.text == text,
        r.children@.len() == 0,
{
    ElementSpec { tag: String::from_str(tag), attrs, text, children: Vec::new() }
}

/// Appends one child element, leaving everything else untouched.
pub fn append_child(parent: &mut ElementSpec, child: ElementSpec)
    ensures
        final(parent).tag == old(parent).tag,
        final(parent).attrs == old(parent).attrs,
        final(parent).text == old(parent).text,
        final(parent).children@ == old(parent).children@.push(child),
{
    parent.children.push(child);
}

/// One attribute pair from borrowed text.
fn attr(k: &str, v: &str) -> (r: (String, String))
    ensures
        r.0@ == k@,
        r.1@ == v@,
{
    (String::from_str(k), String::from_str(v))
}

/// The page title: `h1` reading `DOT`, nothing else.
pub open spec fn is_title(e: ElementSpec) -> bool {
    &&& e.tag@ == "h1"@
    &&& e.attrs@.len() == 0
    &&& e.text is Some
    &&& e.text->Some_0@ == "DOT"@
    &&& e.children@.len() == 0
}

/// The readout: a `span` with the stable identifier `size-output`, already
/// showing the starting size's decimal text.
pub open spec fn is_readout_span(e: ElementSpec, default: u32) -> bool {
    &&& e.tag@ == "span"@
    &&& e.attrs@.len() == 1
    &&& e.attrs@[0].0@ == "id"@
    &&& e.attrs@[0].1@ == "size-output"@
    &&& e.text is Some
    &&& e.text->Some_0@ == spec_digits(default as nat)
    &&& e.children@.len() == 0
}

/// The slider: a range `input` with the stable identifier `size` and the
/// exact range contract `min=5, max=100, step=5`.
pub open spec fn is_slider_input(e: ElementSpec) -> bool {
    &&& e.tag@ == "input"@
    &&& e.attrs@.len() == 5
    &&& attr_keys_unique(e.attrs@)
    &&& has_attr(e, "id"@, "size"@)
    &&& has_attr(e, "type"@, "range"@)
    &&& has_attr(e, "min"@, "5"@)
    &&& has_attr(e, "max"@, "100"@)
    &&& has_attr(e, "step"@, "5"@)
    &&& e.text is None
    &&& e.children@.len() == 0
}

/// The slider's caption: a `label` for the `size` control.
pub open spec fn is_size_label(e: ElementSpec) -> bool {
    &&& e.tag@ == "label"@
    &&& e.attrs@.len() == 1
    &&& e.attrs@[0].0@ == "for"@
    &&& e.attrs@[0].1@ == "size"@
    &&& e.text is Some
    &&& e.text->Some_0@ == "- Size"@
    &&& e.children@.len() == 0
}

/// The drawing surface: a `canvas` with the stable identifier `dot-canvas`.
pub open spec fn is_dot_canvas(e: ElementSpec) -> bool {
    &&& e.tag@ == "canvas"@
    &&& e.attrs@.len() == 1
    &&& e.attrs@[0].0@ == "id"@
    &&& e.attrs@[0].1@ == "dot-canvas"@
    &&& e.text is None
    &&& e.children@.len() == 0
}

/// The canvas sits alone inside a plain paragraph.
pub open spec fn is_canvas_paragraph(e: ElementSpec) -> bool {
    &&& e.tag@ == "p"@
    &&& e.attrs@.len() == 0
    &&& e.text is None
    &&& e.children@.len() == 1
    &&& is_dot_canvas(e.children@[0])
}

/// The control panel: a `div` with identifier `rxcanvas` holding readout,
/// slider, label and canvas paragraph, in that order.
pub open spec fn is_control_panel(e: ElementSpec, default: u32) -> bool {
    &&& e.tag@ == "div"@
    &&& e.attrs@.len() == 1
    &&& e.attrs@[0].0@ == "id"@
    &&& e.attrs@[0].1@ == "rxcanvas"@
    &&& e.text is None
    &&& e.children@.len() == 4
    &&& is_readout_span(e.children@[0], default)
    &&& is_slider_input(e.children@[1])
    &&& is_size_label(e.children@[2])
    &&& is_canvas_paragraph(e.children@[3])
}

/// Builds the canvas inside its paragraph.
fn mount_canvas() -> (r: ElementSpec)
    ensures
        is_canvas_paragraph(r),
{
    let mut canvas_attrs: Vec<(String, String)> = Vec::new();
    canvas_attrs.push(attr("id", "dot-canvas"));
    let canvas = build_element("canvas", canvas_attrs, None);
    let mut p = build_element("p", Vec::new(), None);
    append_child(&mut p, canvas);
    p
}

/// Builds the control panel for a starting size.
fn mount_controls(default: Size) -> (r: ElementSpec)
    requires
        default.wf(),
    ensures
        is_control_panel(r, default.spec_value()),
{
    let mut span_attrs: Vec<(String, String)> = Vec::new();
    span_attrs.push(attr("id", "size-output"));
    let span = build_element(
        "span",
        span_attrs,
        Some(crate::controller::readout_text(default)),
    );

    let mut input_attrs: Vec<(String, String)> = Vec::new();
    input_attrs.push(attr("id", "size"));
    input_attrs.push(attr("type", "range"));
    input_attrs.push(attr("min", "5"));
    input_attrs.push(attr("max", "100"));
    input_attrs.push(attr("step", "5"));
    proof {
        reveal_strlit("id");
        reveal_strlit("type");
        reveal_strlit("min");
        reveal_strlit("max");
        reveal_strlit("step");
        assert("min"@[1] != "max"@[1]);
        assert("type"@[0] != "step"@[0]);
        assert(attr_keys_unique(input_attrs@));
    }
    let input = build_element("input", input_attrs, None);

    let mut label_attrs: Vec<(String, String)> = Vec::new();
    label_attrs.push(attr("for", "size"));
    let label = build_element("label", label_attrs, Some(String::from_str("- Size")));

    let mut div_attrs: Vec<(String, String)> = Vec::new();
    div_attrs.push(attr("id", "rxcanvas"));
    let mut div = build_element("div", div_attrs, None);
    append_child(&mut div, span);
    append_child(&mut div, input);
    append_child(&mut div, label);
    append_child(&mut div, mount_canvas());
    proof {
        assert(div.children@.len() == 4);
        assert(div.children@[0] == span);
        assert(div.children@[1] == input);
        assert(div.children@[2] == label);
        assert(is_readout_span(span, default.spec_value()));
        assert(has_attr(input, "id"@, "size"@)) by {
            assert(input.attrs@[0].0@ == "id"@ && input.attrs@[0].1@ == "size"@);
        }
        assert(has_attr(input, "type"@, "range"@)) by {
            assert(input.attrs@[1].0@ == "type"@ && input.attrs@[1].1@ == "range"@);
        }
        assert(has_attr(input, "min"@, "5"@)) by {
            assert(input.attrs@[2].0@ == "min"@ && input.attrs@[2].1@ == "5"@);
        }
        assert(has_attr(input, "max"@, "100"@)) by {
            assert(input.attrs@[3].0@ == "max"@ && input.attrs@[3].1@ == "100"@);
        }
        assert(has_attr(input, "step"@, "5"@)) by {
            assert(input.attrs@[4].0@ == "step"@ && input.attrs@[4].1@ == "5"@);
        }
        assert(is_slider_input(input));
        assert(is_size_label(label));
        assert(is_canvas_paragraph(div.children@[3]));
    }
    div
}

/// Builds the whole static page for a starting size: the title, then the
/// control panel. The host appends both to the page body and then lets the
/// controller perform the first render pass.
pub fn mount_app(default: Size) -> (r: Vec<ElementSpec>)
    requires
        default.wf(),
    ensures
        r@.len() == 2,
        is_title(r@[0]),
        is_control_panel(r@[1], default.spec_value()),
{
    let title = build_element("h1", Vec::new(), Some(String::from_str("DOT")));
    let panel = mount_controls(default);
    let mut page: Vec<ElementSpec> = Vec::new();
    page.push(title);
    page.push(panel);
    page
}

} // verus!
