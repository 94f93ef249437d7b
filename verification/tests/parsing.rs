//! Scanner and parameter-grammar behavior, at the parser's own interface.
use yatt::ast::OutInternal;
use yatt::errors::ParseError;
use yatt::params;
use yatt::parse::parse;

fn text_of(node: &OutInternal) -> String {
    match node {
        OutInternal::Text(t, _) => t.clone(),
        _ => panic!("expected a text node"),
    }
}

/// A doubled sigil scans to a literal sigil.
#[test]
fn escape_sigil() {
    let node = parse("a\u{a7}\u{a7}b", 0).unwrap();
    match node {
        OutInternal::Many(outs) => {
            assert_eq!(outs.len(), 2);
            assert_eq!(text_of(&outs[0]), "a");
            assert_eq!(text_of(&outs[1]), "\u{a7}b");
        }
        _ => panic!("expected two text runs"),
    }
}

/// Sigil + parenthesis scans to a literal parenthesis.
#[test]
fn escape_parens() {
    let node = parse("\u{a7}(x\u{a7})", 0).unwrap();
    match node {
        OutInternal::Many(outs) => {
            assert_eq!(outs.len(), 3);
            assert_eq!(text_of(&outs[0]), "");
            assert_eq!(text_of(&outs[1]), "(x");
            assert_eq!(text_of(&outs[2]), ")");
        }
        _ => panic!("expected three text runs"),
    }
}

/// Sigil + `#` discards the rest of the line.
#[test]
fn escape_comment() {
    let node = parse("a\u{a7}# gone\nb", 0).unwrap();
    match node {
        OutInternal::Many(outs) => {
            assert_eq!(outs.len(), 2);
            assert_eq!(text_of(&outs[0]), "a");
            assert_eq!(text_of(&outs[1]), "b");
        }
        _ => panic!("expected two text runs"),
    }
}

/// A comment at the very start is dropped with the leading whitespace.
#[test]
fn leading_comment() {
    let node = parse("\u{a7}# gone\n  hello", 0).unwrap();
    assert_eq!(text_of(&node), "hello");
}

/// An unknown bareword is an unknown-macro-name error.
#[test]
fn unknown_macro_name() {
    match parse("\u{a7}nosuchthing", 0) {
        Err(ParseError::UnknownMacroName(_)) => {}
        _ => panic!("expected an unknown-macro-name error"),
    }
}

/// A parameter literal that does not decode is a parameter error.
#[test]
fn bad_parameters() {
    match parse("\u{a7}hsection[not quoted]()()", 0) {
        Err(ParseError::Parameters(_)) => {}
        _ => panic!("expected a parameter error"),
    }
}

/// A known macro parses into its node with its arguments.
#[test]
fn simple_macro() {
    let node = parse("\u{a7}em(word)", 0).unwrap();
    match node {
        OutInternal::Many(outs) => {
            assert_eq!(outs.len(), 3);
            assert_eq!(text_of(&outs[0]), "");
            assert_eq!(text_of(&outs[2]), "");
            match &outs[1] {
                OutInternal::HtmlTag(_, tag, attrs, args) => {
                    assert_eq!(tag.as_str(), "em");
                    assert_eq!(attrs.len(), 0);
                    assert_eq!(args.len(), 1);
                    assert_eq!(text_of(&args[0]), "word");
                }
                _ => panic!("expected an html tag node"),
            }
        }
        _ => panic!("expected text plus macro"),
    }
}

/// Trailing whitespace is trimmed from a fragment's final text run.
#[test]
fn trailing_whitespace_trimmed() {
    let node = parse("word   \n", 0).unwrap();
    assert_eq!(text_of(&node), "word");
}

/// String-array parameter literals decode strings with escapes.
#[test]
fn params_string_array() {
    let (v, end) = params::str_array("[\"ab\", \"c\\\"d\"]", 0).unwrap();
    assert_eq!(end, 14);
    assert_eq!(v.len(), 2);
    assert_eq!(v[0].as_str(), "ab");
    assert_eq!(v[1].as_str(), "c\"d");
}

/// A unicode escape in a string literal decodes to its character.
#[test]
fn params_unicode_escape() {
    let (v, _) = params::str_array("[\"a\\{e904}\"]", 0).unwrap();
    assert_eq!(v[0].as_str(), "a\u{e904}");
}

/// Small-integer parameters decode in decimal, hex and binary, and reject
/// values out of range.
#[test]
fn params_small_ints() {
    assert_eq!(params::u8_array1("[3]", 0).unwrap().0, 3);
    assert_eq!(params::u8_array1("[0x63]", 0).unwrap().0, 99);
    assert_eq!(params::u8_array1("[0b101]", 0).unwrap().0, 5);
    assert!(params::u8_array1("[256]", 0).is_none());
    assert!(params::u8_array1("[]", 0).is_none());
}

/// Booleans and comments decode in parameter position.
#[test]
fn params_bool_and_comment() {
    assert_eq!(params::bool_array1("[ # yes\n true ]", 0).unwrap().0, true);
    assert_eq!(params::bool_array1("[false]", 0).unwrap().0, false);
}

/// String maps decode keys and values in written order.
#[test]
fn params_string_map() {
    let (v, _) = params::str_map("{\"href\": \"x\", \"title\": \"y\"}", 0).unwrap();
    assert_eq!(v.len(), 2);
    assert_eq!(v[0].0.as_str(), "href");
    assert_eq!(v[0].1.as_str(), "x");
    assert_eq!(v[1].0.as_str(), "title");
    assert_eq!(v[1].1.as_str(), "y");
}

/// An empty array with a lone comma decodes as empty.
#[test]
fn params_empty_array_comma() {
    let (v, _) = params::str_array("[,]", 0).unwrap();
    assert_eq!(v.len(), 0);
}
