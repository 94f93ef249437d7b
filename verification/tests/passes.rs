//! Behavior visible only when a single pass is observed in isolation.
use yatt::expand::{expand, Yatt};
use yatt::parse::parse;
use yatt::rope::rope_to_string;
use yatt::run::FUEL;
use yatt::state::State;
use yatt::strmap::StrMap;

fn fresh_pass(doc_path: &str, second: bool) -> Yatt {
    let mut state = State::new(doc_path.to_string());
    state.second_iteration = second;
    Yatt {
        state,
        files: StrMap::new(),
        outputs: Vec::new(),
        copies: Vec::new(),
        source_len: 0,
    }
}

/// Observed in isolation, the first pass expands a cross-reference to
/// empty output: the registry is not final yet.
#[test]
fn cref_empty_in_first_pass() {
    let ast = parse("\u{a7}cref(later)", 0).unwrap();
    let mut y = fresh_pass("doc/main.yt", false);
    let rope = expand(ast, &mut y, FUEL).unwrap();
    assert_eq!(rope_to_string(&rope).as_str(), "");
}

/// The same holds of a defined-term reference.
#[test]
fn term_reference_empty_in_first_pass() {
    let ast = parse("\u{a7}r(thing)", 0).unwrap();
    let mut y = fresh_pass("doc/main.yt", false);
    let rope = expand(ast, &mut y, FUEL).unwrap();
    assert_eq!(rope_to_string(&rope).as_str(), "");
}

/// No target file is logged for writing during the first pass, whatever
/// the input holds.
#[test]
fn first_pass_writes_nothing() {
    let doc = "\u{a7}output[\"a.html\"](x)\u{a7}output[\"b.html\"](\u{a7}theorem[\"t\"](c))";
    let ast = parse(doc, 0).unwrap();
    let mut y = fresh_pass("doc/main.yt", false);
    expand(ast, &mut y, FUEL).unwrap();
    assert_eq!(y.outputs.len(), 0);
    assert_eq!(y.copies.len(), 0);
}

/// The second pass logs the writes the first pass withheld.
#[test]
fn second_pass_writes() {
    let doc = "\u{a7}output[\"a.html\"](x)";
    let ast = parse(doc, 0).unwrap();
    let mut y = fresh_pass("doc/main.yt", true);
    expand(ast, &mut y, FUEL).unwrap();
    assert_eq!(y.outputs.len(), 1);
    assert_eq!(y.outputs[0].content.as_str(), "x");
}

/// Expanding plain text hands the text back.
#[test]
fn text_expands_to_itself() {
    let ast = parse("just words", 0).unwrap();
    let mut y = fresh_pass("doc/main.yt", false);
    let rope = expand(ast, &mut y, FUEL).unwrap();
    assert_eq!(rope_to_string(&rope).as_str(), "just words");
}

/// An enclosing macro wraps its argument in its constant material.
#[test]
fn enclose_wraps() {
    let ast = parse("\u{a7}nowrap(tight)", 0).unwrap();
    let mut y = fresh_pass("doc/main.yt", false);
    let rope = expand(ast, &mut y, FUEL).unwrap();
    assert_eq!(
        rope_to_string(&rope).as_str(),
        "<span class=\"nowrap\">tight</span>"
    );
}

/// An HTML tag macro renders its attributes and nests its argument.
#[test]
fn html_tag_attributes() {
    let ast = parse("\u{a7}a{\"href\": \"u\"}(text)", 0).unwrap();
    let mut y = fresh_pass("doc/main.yt", false);
    let rope = expand(ast, &mut y, FUEL).unwrap();
    assert_eq!(
        rope_to_string(&rope).as_str(),
        "<a href=\"u\">text</a>"
    );
}

/// With two arguments the second lands in the tag's class attribute.
#[test]
fn html_tag_class_argument() {
    let ast = parse("\u{a7}div(wide)(body)", 0).unwrap();
    let mut y = fresh_pass("doc/main.yt", false);
    let rope = expand(ast, &mut y, FUEL).unwrap();
    assert_eq!(
        rope_to_string(&rope).as_str(),
        "<div class=\"wide\">body</div>"
    );
}

/// The second pass re-registers exactly the ids and terms the first pass
/// discovered, without raising duplicate-registration errors.
#[test]
fn registry_same_across_passes() {
    let doc = "\u{a7}output[\"o.html\"](\u{a7}hsection[\"s\"](T)(\u{a7}theorem[\"t\"](c) \u{a7}define(w)))";
    let ast = parse(doc, 0).unwrap();
    let mut y = fresh_pass("doc/main.yt", false);
    expand(ast, &mut y, FUEL).unwrap();
    assert!(y.state.sticky_state.ids.contains_key("s"));
    assert!(y.state.sticky_state.ids.contains_key("t"));
    assert!(y.state.sticky_state.defined.contains_key("w"));

    let mut y2 = fresh_pass("doc/main.yt", true);
    let mut sticky = core::mem::replace(&mut y.state.sticky_state, y2.state.sticky_state);
    sticky.hsections_structure.reset();
    y2.state.sticky_state = sticky;
    y2.source_len = y.source_len;
    let ast2 = parse(doc, y2.source_len).unwrap();
    let r = expand(ast2, &mut y2, FUEL);
    assert!(r.is_ok());
    assert!(y2.state.sticky_state.ids.contains_key("s"));
    assert!(y2.state.sticky_state.ids.contains_key("t"));
    assert!(y2.state.sticky_state.defined.contains_key("w"));
}
