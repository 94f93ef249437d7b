//! End-to-end runs of the two-pass pipeline over in-memory file sets.
use yatt::errors::ExpansionError;
use yatt::run::{run, RunConfiguration, RunOutput, YattError};
use yatt::strmap::StrMap;

fn run_doc(doc: &str) -> Result<RunOutput, YattError> {
    let mut files: StrMap<String> = StrMap::new();
    files.insert("doc/main.yt".to_string(), doc.to_string());
    run(RunConfiguration { entrypoint: "doc/main.yt".to_string() }, files)
}

fn sole_output(out: &RunOutput) -> &str {
    assert_eq!(out.outputs.len(), 1);
    out.outputs[0].content.as_str()
}

fn output_at<'a>(out: &'a RunOutput, path: &str) -> &'a str {
    for f in &out.outputs {
        if f.path.as_str() == path {
            return f.content.as_str();
        }
    }
    panic!("no output under that path");
}

/// A first top-level heading renders numbering 1 with its title and body,
/// and its id resolves under the domain and the output-relative path.
#[test]
fn first_heading_renders_one() {
    let out = run_doc(
        "\u{a7}output[\"o.html\"](\u{a7}hsection[\"intro\"](\"Title\")(\"Body\"))",
    ).unwrap();
    assert_eq!(out.outputs[0].path.as_str(), "doc/build/o.html");
    let html = sole_output(&out);
    assert!(html.contains("<h2 id=\"intro\">"));
    assert!(html.contains("<a href=\"http://localhost:8080/o.html#intro\">"));
    assert!(html.contains("<div>Chapter 1</div>\"Title\""));
    assert!(html.contains("\"Body\""));
}

/// Sibling and nested headings number as dot-joined ancestor counters.
#[test]
fn heading_numbering_nested() {
    let doc = "\u{a7}output[\"o.html\"](\u{a7}hsection[\"a\"](A)(\u{a7}hsection[\"b\"](B)(x))\u{a7}hsection[\"c\"](C)(y))";
    let html_out = run_doc(doc).unwrap();
    let html = sole_output(&html_out);
    assert!(html.contains("<div>Chapter 1</div>A"));
    assert!(html.contains("1.1: B"));
    assert!(html.contains("<div>Chapter 2</div>C"));
}

/// Five levels of nesting number all the way down, dot-joined.
#[test]
fn heading_numbering_deep() {
    let doc = "\u{a7}output[\"o.html\"](\u{a7}hsection[\"l1\"](A)(\u{a7}hsection[\"l2\"](B)(\u{a7}hsection[\"l3\"](C)(\u{a7}hsection[\"l4\"](D)(\u{a7}hsection[\"l5\"](E)(\u{a7}cref(l5)))))))";
    let out = run_doc(doc).unwrap();
    let html = sole_output(&out);
    assert!(html.contains("Subsubsubsection&nbsp;1.1.1.1.1"));
}

/// A sixth nesting level is a fatal error.
#[test]
fn heading_nesting_too_deep() {
    let doc = "\u{a7}output[\"o.html\"](\u{a7}hsection[\"l1\"](A)(\u{a7}hsection[\"l2\"](B)(\u{a7}hsection[\"l3\"](C)(\u{a7}hsection[\"l4\"](D)(\u{a7}hsection[\"l5\"](E)(\u{a7}hsection[\"l6\"](F)(x)))))))";
    match run_doc(doc) {
        Err(YattError::Expansion(ExpansionError::HSectionTooManyLevels(_))) => {}
        _ => panic!("expected a nesting error"),
    }
}

/// Wrong arity always fails with an argument-count error and yields no
/// output at all.
#[test]
fn arity_error_no_output() {
    match run_doc("\u{a7}output[\"o.html\"](\u{a7}template(only_one))") {
        Err(YattError::Expansion(ExpansionError::ArgumentNumber(n, _))) => {
            assert_eq!(n, 1);
        }
        _ => panic!("expected an argument-count error"),
    }
}

/// A cross-reference to an id defined later in the document resolves after
/// both passes.
#[test]
fn forward_reference_resolves() {
    let doc = "\u{a7}output[\"o.html\"](\u{a7}hsection[\"s\"](T)(\u{a7}cref(later) \u{a7}theorem[\"later\"](claim)))";
    let out = run_doc(doc).unwrap();
    let html = output_at(&out, "doc/build/o.html");
    assert!(html.contains("Theorem&nbsp; 1.1"));
    assert!(html.contains("#later"));
}

/// A cross-reference to an id defined nowhere fails in the second pass.
#[test]
fn unknown_reference_fails() {
    match run_doc("\u{a7}output[\"o.html\"](\u{a7}cref(ghost))") {
        Err(YattError::Expansion(ExpansionError::UnknownId(_))) => {}
        _ => panic!("expected an unknown-id error"),
    }
}

/// Every output invocation reached by the second pass writes exactly once.
#[test]
fn write_discipline_two_outputs() {
    let doc = "\u{a7}output[\"a.html\"](x)\u{a7}output[\"b.html\"](y)";
    let out = run_doc(doc).unwrap();
    assert_eq!(out.outputs.len(), 2);
    assert_eq!(out.outputs[0].path.as_str(), "doc/build/a.html");
    assert_eq!(out.outputs[1].path.as_str(), "doc/build/b.html");
}

/// Defining a term and referencing it with the capitalize and pluralize
/// flags renders the matching forms.
#[test]
fn define_and_reference_forms() {
    let doc = "\u{a7}output[\"o.html\"](\u{a7}define[\"w\"](widget)(widgets) \u{a7}rs(widget) \u{a7}R(widget))";
    let out = run_doc(doc).unwrap();
    let html = sole_output(&out);
    assert!(html.contains(">widgets</a>"));
    assert!(html.contains(">Widget</a>"));
}

/// Referencing a term that was never defined fails in the second pass.
#[test]
fn undefined_term_fails() {
    match run_doc("\u{a7}output[\"o.html\"](\u{a7}r(nothing))") {
        Err(YattError::Expansion(ExpansionError::UnknownDefine(_))) => {}
        _ => panic!("expected an unknown-definition error"),
    }
}

/// Defining the empty name is an error.
#[test]
fn empty_define_fails() {
    match run_doc("\u{a7}output[\"o.html\"](\u{a7}define())") {
        Err(YattError::Expansion(ExpansionError::EmptyDefine(_))) => {}
        _ => panic!("expected an empty-definition error"),
    }
}

/// Defining the same term twice within the first pass is an error.
#[test]
fn duplicate_define_fails() {
    let doc = "\u{a7}output[\"o.html\"](\u{a7}define(w) \u{a7}define(w))";
    match run_doc(doc) {
        Err(YattError::Expansion(ExpansionError::DuplicateDefine(_, _))) => {}
        _ => panic!("expected a duplicate-definition error"),
    }
}

/// Registering the same id twice within the first pass is an error.
#[test]
fn duplicate_id_fails() {
    let doc = "\u{a7}output[\"o.html\"](\u{a7}hsection[\"s\"](A)(x)\u{a7}hsection[\"s\"](B)(y))";
    match run_doc(doc) {
        Err(YattError::Expansion(ExpansionError::DuplicateId(_, _))) => {}
        _ => panic!("expected a duplicate-id error"),
    }
}

/// A case marker outside of any cases block is an error.
#[test]
fn case_outside_cases() {
    match run_doc("\u{a7}output[\"o.html\"](\u{a7}case(x))") {
        Err(YattError::Expansion(ExpansionError::CaseNotInCases(_))) => {}
        _ => panic!("expected a case-not-in-cases error"),
    }
}

/// Cases number in order inside a cases block.
#[test]
fn cases_number_in_order() {
    let doc = "\u{a7}output[\"o.html\"](\u{a7}cases(\u{a7}case(a)\u{a7}case(b)))";
    let out = run_doc(doc).unwrap();
    let html = sole_output(&out);
    assert!(html.contains("Case 1:"));
    assert!(html.contains("Case 2:"));
}

/// An input macro pulls another file of the set in; a missing one is an
/// error.
#[test]
fn input_includes_file() {
    let mut files: StrMap<String> = StrMap::new();
    files.insert(
        "doc/main.yt".to_string(),
        "\u{a7}output[\"o.html\"](\u{a7}input[\"part.yt\"])".to_string(),
    );
    files.insert("doc/part.yt".to_string(), "included words".to_string());
    let out = run(RunConfiguration { entrypoint: "doc/main.yt".to_string() }, files).unwrap();
    assert!(sole_output(&out).contains("included words"));
}

#[test]
fn input_missing_file() {
    match run_doc("\u{a7}output[\"o.html\"](\u{a7}input[\"gone.yt\"])") {
        Err(YattError::Expansion(ExpansionError::InputMissing(p, _))) => {
            assert_eq!(p.as_str(), "doc/gone.yt");
        }
        _ => panic!("expected a missing-input error"),
    }
}

/// The cwd macro expands to the directory of the current file.
#[test]
fn cwd_is_current_dir() {
    let out = run_doc("\u{a7}output[\"o.html\"](\u{a7}cwd)").unwrap();
    assert!(sole_output(&out).contains("doc"));
}

/// A math macro renders its preview-carrying TeX during the second pass
/// from the id bound to it.
#[test]
fn math_macro_links() {
    let doc = "\u{a7}set_math_id[\"in\", \"sec\"] \u{a7}output[\"o.html\"](\u{a7}hsection[\"sec\"](T)(\u{a7}\u{24}in))";
    let out = run_doc(doc).unwrap();
    let html = sole_output(&out);
    assert!(html.contains("\\htmlData{preview=http://localhost:8080/previews/sec.html}"));
    assert!(html.contains("\\in"));
}

/// A math macro whose id was never bound is an error.
#[test]
fn math_macro_unknown_id() {
    match run_doc("\u{a7}output[\"o.html\"](\u{a7}\u{24}in)") {
        Err(YattError::Expansion(ExpansionError::UnknownMathId(_, id))) => {
            assert_eq!(id.as_str(), "in");
        }
        _ => panic!("expected an unknown-math-id error"),
    }
}

/// A numbered box writes its preview snippet during the second pass.
#[test]
fn box_preview_written() {
    let doc = "\u{a7}output[\"o.html\"](\u{a7}theorem[\"thm\"](claim))";
    let out = run_doc(doc).unwrap();
    let mut preview_paths = 0;
    for f in &out.outputs {
        if f.path.as_str() == "doc/build/previews/thm.html" {
            preview_paths += 1;
            assert!(f.content.contains("claim"));
        }
    }
    assert_eq!(preview_paths, 1);
}

/// The copy macro logs its recursive copy during the second pass only.
#[test]
fn copy_logged_once() {
    let doc = "\u{a7}output[\"o.html\"](x)\u{a7}copy[\"assets\", \"assets\"]";
    let out = run_doc(doc).unwrap();
    assert_eq!(out.copies.len(), 1);
    assert_eq!(out.copies[0].from.as_str(), "assets");
    assert_eq!(out.copies[0].to.as_str(), "build/assets");
}

/// The lorem constant expands to its fixed text.
#[test]
fn lorem_constant() {
    let out = run_doc("\u{a7}output[\"o.html\"](\u{a7}lorem)").unwrap();
    assert!(sole_output(&out).contains("Lorem ipsum dolor sit amet"));
}

/// The entrypoint must be in the file set.
#[test]
fn entry_missing() {
    let files: StrMap<String> = StrMap::new();
    match run(RunConfiguration { entrypoint: "doc/main.yt".to_string() }, files) {
        Err(YattError::EntryMissing(p)) => {
            assert_eq!(p.as_str(), "doc/main.yt");
        }
        _ => panic!("expected a missing-entry error"),
    }
}

/// A TeX run renders through the math renderer to HTML: the result is
/// rendered markup, not the TeX source handed through.
#[test]
fn tex_renders_to_html() {
    let out = run_doc("\u{a7}output[\"o.html\"](\u{a7}$(x_1))").unwrap();
    let html = sole_output(&out);
    assert!(html.contains("class=\"katex\""));
    assert!(html.contains("</span>"));
}

/// Entering math mode while already in math mode is an error.
#[test]
fn math_mode_reentrancy() {
    match run_doc("\u{a7}output[\"o.html\"](\u{a7}$(\u{a7}$(x)))") {
        Err(YattError::Expansion(ExpansionError::AlreadyMathmode(_))) => {}
        _ => panic!("expected a math-mode error"),
    }
}

/// A toggled block renders its button with the given id and hides its
/// content.
#[test]
fn toggled_solution() {
    let out = run_doc(
        "\u{a7}output[\"o.html\"](\u{a7}solution[\"s1\"](hidden words))",
    ).unwrap();
    let html = sole_output(&out);
    assert!(html.contains("id=\"btn_toggle_s1\">Show Solution</button>"));
    assert!(html.contains("hidden words"));
    assert!(html.contains("Hide Solution"));
}

/// A proof box names the claim it proves from the registry.
#[test]
fn proof_names_claim() {
    let doc = "\u{a7}output[\"o.html\"](\u{a7}theorem[\"thm\"](claim)\u{a7}proof[\"thm\"](because))";
    let out = run_doc(doc).unwrap();
    let html = output_at(&out, "doc/build/o.html");
    assert!(html.contains("Proof of Theorem&nbsp; 1"));
    assert!(html.contains("id=\"proof_thm\""));
}

/// A definition with custom preview text writes its own preview snippet.
#[test]
fn definex_custom_preview() {
    let doc = "\u{a7}output[\"o.html\"](\u{a7}definex[\"d1\"](gadget)(a gadget is a thing))";
    let out = run_doc(doc).unwrap();
    let preview = output_at(&out, "doc/build/previews/d1.html");
    assert!(preview.contains("<article>a gadget is a thing</article>"));
}

/// Chapter navigation links the previous and next chapters found by the
/// first pass, and the table of contents.
#[test]
fn chapter_navigation() {
    let doc = "\u{a7}output[\"o.html\"](\u{a7}hsection[\"toc\"](Contents)(\u{a7}hsection[\"c1\"](One)(\u{a7}chapternav)\u{a7}hsection[\"c2\"](Two)(\u{a7}chapternav)))";
    let out = run_doc(doc).unwrap();
    let html = sole_output(&out);
    assert!(html.contains("<div class=\"next_chapter\">\n        <a href=\"http://localhost:8080/o.html#c2\">Two</a>"));
    assert!(html.contains("<div class=\"previous_chapter\">\n        <a href=\"http://localhost:8080/o.html#c1\">One</a>"));
    assert!(html.contains(">Table of Contents</a>"));
}

/// An output with the tee flag also hands its content onward.
#[test]
fn output_tee_passes_content() {
    let doc = "\u{a7}output[\"outer.html\"](before \u{a7}output_tee[\"inner.html\"](shared) after)";
    let out = run_doc(doc).unwrap();
    assert_eq!(out.outputs.len(), 2);
    let outer = output_at(&out, "doc/build/outer.html");
    let inner = output_at(&out, "doc/build/inner.html");
    assert_eq!(inner, "shared");
    assert!(outer.contains("before shared after"));
}

/// A set-builder expression wraps its two arguments in sized braces.
#[test]
fn set_builder_template() {
    let out = run_doc("\u{a7}output[\"o.html\"](\u{a7}$set_builder[0](x)(P))").unwrap();
    let html = sole_output(&out);
    assert!(html.contains("\\lbrace x\\midP \\rbrace"));
}

/// The drop macro expands its arguments for their effects and emits
/// nothing.
#[test]
fn drop_emits_nothing() {
    let out = run_doc("\u{a7}output[\"o.html\"](a\u{a7}drop(gone)b)").unwrap();
    let html = sole_output(&out);
    assert!(html.contains("ab"));
    assert!(!html.contains("gone"));
}

/// A case with an id can be cross-referenced by its case numbering.
#[test]
fn cref_to_case() {
    let doc = "\u{a7}output[\"o.html\"](\u{a7}cases(\u{a7}case[\"c1\"](first)(body)) \u{a7}cref(c1))";
    let out = run_doc(doc).unwrap();
    let html = sole_output(&out);
    assert!(html.contains("Case&nbsp;1"));
    assert!(html.contains("#c1"));
}

/// A math set renders the empty set, and braces around its elements, with
/// a link to the id bound to the set symbol.
#[test]
fn math_set_forms() {
    let doc = "\u{a7}set_math_id[\"set\", \"s\"] \u{a7}output[\"o.html\"](\u{a7}hsection[\"s\"](T)(\u{a7}$set \u{a7}$set[0](a)(b)))";
    let out = run_doc(doc).unwrap();
    let html = sole_output(&out);
    assert!(html.contains("{\\emptyset}"));
    assert!(html.contains("\\lbrace a, \\allowbreakb \\rbrace"));
}

/// A relative input path resolves against the directory of the file being
/// expanded, so an included file can include its own neighbors.
#[test]
fn nested_input_relative_to_current_file() {
    let mut files: StrMap<String> = StrMap::new();
    files.insert(
        "doc/main.yt".to_string(),
        "\u{a7}output[\"o.html\"](\u{a7}input[\"sub/inner.yt\"])".to_string(),
    );
    files.insert("doc/sub/inner.yt".to_string(), "\u{a7}input[\"more.yt\"]".to_string());
    files.insert("doc/sub/more.yt".to_string(), "deep words".to_string());
    let out = run(RunConfiguration { entrypoint: "doc/main.yt".to_string() }, files).unwrap();
    assert!(sole_output(&out).contains("deep words"));
}

/// A definition outside any box anchors to its own id, and the next
/// paragraph flushes its preview snippet under that id.
#[test]
fn boxless_define_preview() {
    let doc = "\u{a7}output[\"o.html\"](\u{a7}p(\u{a7}define[\"w1\"](widget) explained))";
    let out = run_doc(doc).unwrap();
    let preview = output_at(&out, "doc/build/previews/w1.html");
    assert!(preview.contains("<p>"));
    assert!(preview.contains("explained"));
}

/// A definition inside a box anchors to the box: the box's preview snippet
/// is written again under the box's id when the box closes.
#[test]
fn define_inside_box_preview() {
    let doc = "\u{a7}output[\"o.html\"](\u{a7}theorem[\"t1\"](about \u{a7}define(gizmo)))";
    let out = run_doc(doc).unwrap();
    let mut t1_previews = 0;
    for f in &out.outputs {
        if f.path.as_str() == "doc/build/previews/t1.html" {
            t1_previews += 1;
            assert!(f.content.contains("Theorem"));
        }
    }
    assert_eq!(t1_previews, 2);
}

/// The bold tag of the table renders as in the table.
#[test]
fn bold_tag_renders() {
    let out = run_doc("\u{a7}output[\"o.html\"](\u{a7}b(strong words))").unwrap();
    assert!(sole_output(&out).contains("<b>strong words</b>"));
}
