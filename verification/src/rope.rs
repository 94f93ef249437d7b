//! The expansion interpreter accumulates its output text in `ropey::Rope`
//! values. The rope is opaque to verification; its contents are modeled by
//! `rope_text`, and the operations the interpreter uses are stated here over
//! that model.
use vstd::prelude::*;
use ropey::Rope;

verus! {

#[verifier::external_type_specification]
#[verifier::external_body]
pub struct ExRope(Rope);

/// The characters a rope holds, in order.
pub uninterp spec fn rope_text(r: Rope) -> Seq<char>;

/// Relies on ropey::Rope::new: a fresh rope holds no text.
#[verifier::external_body]
pub fn rope_new() -> (r: Rope)
    ensures
        rope_text(r) == Seq::<char>::empty(),
{
    Rope::new()
}

/// Relies on ropey::Rope::from_str: the rope holds exactly the given text.
#[verifier::external_body]
pub fn rope_from_str(s: &str) -> (r: Rope)
    ensures
        rope_text(r) == s@,
{
    Rope::from_str(s)
}

/// Relies on ropey::Rope::len_chars: the total number of chars in the rope.
#[verifier::external_body]
pub fn rope_len_chars(r: &Rope) -> (n: usize)
    ensures
        n == rope_text(*r).len(),
{
    r.len_chars()
}

/// Relies on ropey::Rope::insert: splices `text` in at char index
/// `char_idx`. It panics past the end, so that index is excluded here.
#[verifier::external_body]
pub fn rope_insert(r: &mut Rope, char_idx: usize, text: &str)
    requires
        char_idx <= rope_text(*old(r)).len(),
    ensures
        rope_text(*final(r)) == rope_text(*old(r)).subrange(0, char_idx as int) + text@
            + rope_text(*old(r)).subrange(
            char_idx as int,
            rope_text(*old(r)).len() as int,
        ),
{
    r.insert(char_idx, text)
}

/// Relies on ropey::Rope::append: concatenates `other` onto the end,
/// consuming it.
#[verifier::external_body]
pub fn rope_append(r: &mut Rope, other: Rope)
    ensures
        rope_text(*final(r)) == rope_text(*old(r)) + rope_text(other),
{
    r.append(other)
}

/// Relies on ropey's `Clone` for Rope: the clone holds the same text.
#[verifier::external_body]
pub fn rope_clone(r: &Rope) -> (c: Rope)
    ensures
        rope_text(c) == rope_text(*r),
{
    r.clone()
}

/// Relies on ropey's `From<&Rope> for String`: reads the whole text out.
#[verifier::external_body]
pub fn rope_to_string(r: &Rope) -> (s: String)
    ensures
        s@ == rope_text(*r),
{
    String::from(r)
}

/// Appends `text` at the end of the rope.
pub fn rope_push_str(r: &mut Rope, text: &str)
    ensures
        rope_text(*final(r)) == rope_text(*old(r)) + text@,
{
    let n = rope_len_chars(r);
    rope_insert(r, n, text);
    proof {
        assert(rope_text(*old(r)).subrange(0, n as int) =~= rope_text(*old(r)));
        assert(rope_text(*old(r)).subrange(n as int, n as int) =~= Seq::<char>::empty());
        assert(rope_text(*r) =~= rope_text(*old(r)) + text@);
    }
}

/// Appends the characters of `s` at the end of the rope.
pub fn rope_push_string(r: &mut Rope, s: &String)
    ensures
        rope_text(*final(r)) == rope_text(*old(r)) + s@,
{
    rope_push_str(r, s.as_str());
}

} // verus!
