//! Unit behavior of the library's data types.
use yatt::errors::ExpansionError;
use yatt::hsections::HSections;
use yatt::setops::{Operator, Term, S1, S2};
use yatt::state::{BoxKind, CrefKind, State};
use yatt::strmap::StrMap;
use yatt::text::{decimal_string, parent_dir, some_kind_of_uppercase_first_letter};
use yatt::trace::Trace;

/// Set operators combine region bits as their set operations.
#[test]
fn operator_apply() {
    assert_eq!(Operator::Intersection.apply(0b1100, 0b1010), 0b1000);
    assert_eq!(Operator::Union.apply(0b1100, 0b1010), 0b1110);
    assert_eq!(Operator::Difference.apply(0b1100, 0b1010), 0b0100);
    assert_eq!(Operator::SymmetricDifference.apply(0b1100, 0b1010), 0b0110);
}

/// A term evaluates bottom-up and counts its nodes.
#[test]
fn term_eval_and_count() {
    let t = Term::Binary(
        Box::new(Term::Unary(S1)),
        Operator::Intersection,
        Box::new(Term::Binary(
            Box::new(Term::Unary(S2)),
            Operator::Union,
            Box::new(Term::Unary(0)),
        )),
    );
    assert_eq!(t.eval(), S1 & (S2 | 0));
    assert_eq!(t.count(), 5);
}

/// The navigation tree answers sibling queries against the tree of the
/// prior pass: within it, the previous sibling is one step back and the
/// next one step forward.
#[test]
fn navigation_siblings() {
    let mut nav = HSections::new();
    nav.push("one".to_string(), false);
    nav.pop();
    nav.push("two".to_string(), false);
    nav.pop();
    nav.push("three".to_string(), false);
    nav.pop();
    nav.reset();
    nav.push("one".to_string(), true);
    nav.pop();
    nav.push("two".to_string(), true);
    {
        let (prev, next) = nav.previous_and_next_ids();
        assert_eq!(prev, Some("one"));
        assert_eq!(next, Some("three"));
    }
    nav.pop();
    nav.push("three".to_string(), true);
    let (prev, next) = nav.previous_and_next_ids();
    assert_eq!(prev, Some("two"));
    assert_eq!(next, None);
}

/// Before any pass finished, sibling queries find nothing next to the
/// first section.
#[test]
fn navigation_fresh_tree() {
    let mut nav = HSections::new();
    nav.push("one".to_string(), false);
    let (prev, next) = nav.previous_and_next_ids();
    assert_eq!(prev, None);
    assert_eq!(next, None);
}

/// Registering an id twice in the first pass is a duplicate-id error;
/// registering the same id again in the second pass is expected and
/// resolves to its URL.
#[test]
fn register_id_passes() {
    let mut st = State::new("doc/main.yt".to_string());
    assert!(st.register_id("x", CrefKind::HSection, Trace::none()).is_ok());
    match st.register_id("x", CrefKind::HSection, Trace::none()) {
        Err(ExpansionError::DuplicateId(_, _)) => {}
        _ => panic!("expected a duplicate-id error"),
    }
    let mut st2 = State::new("doc/main.yt".to_string());
    st2.second_iteration = true;
    assert!(st2.register_id("x", CrefKind::HSection, Trace::none()).is_ok());
    let again = st2.register_id("x", CrefKind::HSection, Trace::none());
    match again {
        Ok(url) => assert_eq!(url.as_str(), "http://localhost:8080/#x"),
        Err(_) => panic!("second-pass re-registration must not fail"),
    }
}

/// Resolution in the first pass hands out a placeholder; in the second it
/// fails exactly for unregistered ids.
#[test]
fn resolve_id_passes() {
    let st = State::new("doc/main.yt".to_string());
    assert_eq!(
        st.resolve_id_to_url("x", Trace::none()).unwrap().as_str(),
        "set in second iteration"
    );
    let mut st2 = State::new("doc/main.yt".to_string());
    st2.second_iteration = true;
    match st2.resolve_id_to_url("x", Trace::none()) {
        Err(ExpansionError::UnknownId(_)) => {}
        _ => panic!("expected an unknown-id error"),
    }
}

/// The empty id registers nothing and resolves to the empty URL.
#[test]
fn register_empty_id() {
    let mut st = State::new("doc/main.yt".to_string());
    let url = st.register_id("", CrefKind::Box, Trace::none()).unwrap();
    assert_eq!(url.as_str(), "");
    let r = st.register_id("", CrefKind::Box, Trace::none());
    assert!(r.is_ok());
}

/// Box kinds carry their CSS classes.
#[test]
fn box_kind_classes() {
    assert_eq!(BoxKind::exercise().class().as_str(), "exercise");
    assert_eq!(BoxKind::fact().class().as_str(), "fact");
    assert_eq!(BoxKind::example().class().as_str(), "example");
    assert_eq!(BoxKind::definition().class().as_str(), "definition");
}

/// Decimal rendering and first-letter capitalization.
#[test]
fn text_helpers() {
    assert_eq!(decimal_string(0).as_str(), "0");
    assert_eq!(decimal_string(1234567890).as_str(), "1234567890");
    assert_eq!(some_kind_of_uppercase_first_letter("widgets").as_str(), "Widgets");
    assert_eq!(some_kind_of_uppercase_first_letter("").as_str(), "");
    assert_eq!(parent_dir("a/b/c.yt").as_str(), "a/b");
    assert_eq!(parent_dir("c.yt").as_str(), "");
}

/// The string table binds, shadows and answers membership.
#[test]
fn strmap_basics() {
    let mut m: StrMap<usize> = StrMap::new();
    assert!(m.get("k").is_none());
    m.insert("k".to_string(), 1);
    m.insert("k".to_string(), 2);
    assert_eq!(m.get("k"), Some(&2));
    assert!(m.contains_key("k"));
    assert!(!m.contains_key("other"));
}
