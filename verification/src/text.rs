//! Small verified utilities over strings and decimal numbers that the rest of
//! the crate builds its output text from.
use vstd::prelude::*;
use vstd::string::StrSliceExecFns;
use vstd::string::StringExecFns;

verus! {

/// Renders a nonnegative integer in decimal, most significant digit first.
pub open spec fn spec_decimal(n: nat) -> Seq<char>
    decreases n,
{
    if n < 10 {
        seq![spec_digit(n)]
    } else {
        spec_decimal(n / 10).push(spec_digit(n % 10))
    }
}

/// The character for a single decimal digit.
pub open spec fn spec_digit(d: nat) -> char {
    if d == 0 { '0' }
    else if d == 1 { '1' }
    else if d == 2 { '2' }
    else if d == 3 { '3' }
    else if d == 4 { '4' }
    else if d == 5 { '5' }
    else if d == 6 { '6' }
    else if d == 7 { '7' }
    else if d == 8 { '8' }
    else { '9' }
}

/// Writes the decimal digit `d` onto the end of `out`.
fn push_digit(out: &mut String, d: usize)
    requires
        d < 10,
    ensures
        final(out)@ == old(out)@ + seq![spec_digit(d as nat)],
{
    let s: &str = match d {
        0 => "0",
        1 => "1",
        2 => "2",
        3 => "3",
        4 => "4",
        5 => "5",
        6 => "6",
        7 => "7",
        8 => "8",
        _ => "9",
    };
    proof {
        reveal_strlit("0");
        reveal_strlit("1");
        reveal_strlit("2");
        reveal_strlit("3");
        reveal_strlit("4");
        reveal_strlit("5");
        reveal_strlit("6");
        reveal_strlit("7");
        reveal_strlit("8");
        reveal_strlit("9");
    }
    assert(s@ =~= seq![spec_digit(d as nat)]);
    out.append(s);
}

/// Writes `n` in decimal onto the end of `out`.
pub fn push_decimal(out: &mut String, n: usize)
    ensures
        final(out)@ == old(out)@ + spec_decimal(n as nat),
    decreases n,
{
    if n < 10 {
        push_digit(out, n);
    } else {
        push_decimal(out, n / 10);
        push_digit(out, n % 10);
        assert(old(out)@ + spec_decimal((n / 10) as nat) + seq![spec_digit((n % 10) as nat)]
            =~= old(out)@ + spec_decimal(n as nat));
    }
}

/// Renders `n` in decimal as a fresh string.
pub fn decimal_string(n: usize) -> (r: String)
    ensures
        r@ == spec_decimal(n as nat),
{
    let mut out = String::new();
    push_decimal(&mut out, n);
    assert(out@ =~= spec_decimal(n as nat));
    out
}

/// Whether two string slices hold the same characters.
pub fn str_eq(a: &str, b: &str) -> (r: bool)
    ensures
        r == (a@ == b@),
{
    let x: String = a.to_owned();
    let y: String = b.to_owned();
    x == y
}

/// Appends `s` onto `out`.
pub fn push_str(out: &mut String, s: &str)
    ensures
        final(out)@ == old(out)@ + s@,
{
    out.append(s);
}

/// Appends the characters of the string `s` onto `out`.
pub fn push_string(out: &mut String, s: &String)
    ensures
        final(out)@ == old(out)@ + s@,
{
    out.append(s.as_str());
}

/// Relies on String::push: appends one character.
#[verifier::external_body]
pub fn push_char(out: &mut String, c: char)
    ensures
        final(out)@ == old(out)@ + seq![c],
{
    out.push(c)
}

/// Relies on char::from_u32: `Some` exactly for unicode scalar values, and
/// the character returned carries that code point.
#[verifier::external_body]
pub fn char_from_u32(n: u32) -> (r: Option<char>)
    ensures
        match r {
            Some(c) => c as u32 == n,
            None => !vstd::utf8::is_scalar(n),
        },
{
    char::from_u32(n)
}

/// The character with code point `n`.
pub open spec fn char_of_scalar(n: u32) -> char {
    n as char
}

/// Whether `p` is an absolute path: it starts with `/`.
pub open spec fn spec_is_absolute(p: Seq<char>) -> bool {
    p.len() > 0 && p[0] == '/'
}

/// Whether the path `p` starts with `/`.
pub fn is_absolute(p: &str) -> (r: bool)
    ensures
        r == spec_is_absolute(p@),
{
    if p.unicode_len() == 0 {
        false
    } else {
        p.get_char(0) == '/'
    }
}

/// The directory part of a path: everything up to (excluding) the last `/`,
/// or the empty string when the path holds no `/`.
pub open spec fn spec_parent(p: Seq<char>) -> Seq<char> {
    if exists|i: int| 0 <= i < p.len() && p[i] == '/' {
        p.subrange(0, last_slash(p) as int)
    } else {
        Seq::empty()
    }
}

/// Index of the last `/` in `p`; meaningful only when one exists.
pub open spec fn last_slash(p: Seq<char>) -> nat {
    choose|i: nat| {
        &&& i < p.len()
        &&& p[i as int] == '/'
        &&& forall|j: int| i < j < p.len() ==> p[j] != '/'
    }
}

proof fn lemma_last_slash_exists(p: Seq<char>)
    requires
        exists|i: int| 0 <= i < p.len() && p[i] == '/',
    ensures
        last_slash(p) < p.len(),
        p[last_slash(p) as int] == '/',
        forall|j: int| last_slash(p) < j < p.len() ==> p[j] != '/',
    decreases p.len(),
{
    let n = p.len() as int;
    if p[n - 1] == '/' {
        let w = (n - 1) as nat;
        assert({
            &&& w < p.len()
            &&& p[w as int] == '/'
            &&& forall|j: int| w < j < p.len() ==> p[j] != '/'
        });
    } else {
        let q = p.subrange(0, n - 1);
        assert(exists|i: int| 0 <= i < q.len() && q[i] == '/') by {
            let i = choose|i: int| 0 <= i < p.len() && p[i] == '/';
            assert(q[i] == '/');
        }
        lemma_last_slash_exists(q);
        let w = last_slash(q);
        assert(p[w as int] == '/');
        assert(forall|j: int| w < j < p.len() ==> p[j] != '/') by {
            assert(forall|j: int| w < j < q.len() ==> #[trigger] p[j] == q[j]);
        }
        assert({
            &&& w < p.len()
            &&& p[w as int] == '/'
            &&& forall|j: int| w < j < p.len() ==> p[j] != '/'
        });
    }
}

/// Returns the directory part of `p` (up to the last `/`).
pub fn parent_dir(p: &str) -> (r: String)
    ensures
        r@ == spec_parent(p@),
{
    let n = p.unicode_len();
    let mut i: usize = n;
    while i > 0
        invariant
            i <= n,
            n == p@.len(),
            forall|j: int| i <= j < n ==> p@[j] != '/',
        decreases i,
    {
        if p.get_char(i - 1) == '/' {
            proof {
                lemma_last_slash_exists(p@);
                assert(last_slash(p@) == i - 1);
            }
            let r = p.substring_char(0, i - 1);
            return r.to_owned();
        }
        i = i - 1;
    }
    assert(forall|j: int| 0 <= j < p@.len() ==> p@[j] != '/');
    assert(!exists|j: int| 0 <= j < p@.len() && p@[j] == '/');
    let r = String::new();
    assert(r@ =~= spec_parent(p@));
    r
}

/// Joins a directory and a further path with a `/` between them; a leading
/// `/` on `b` is not stripped here, and an empty `a` yields `/` + `b`.
pub open spec fn spec_join(a: Seq<char>, b: Seq<char>) -> Seq<char> {
    a + seq!['/'] + b
}

/// Joins a directory and a path with `/`.
pub fn path_join(a: &str, b: &str) -> (r: String)
    ensures
        r@ == spec_join(a@, b@),
{
    let mut out: String = a.to_owned();
    proof {
        reveal_strlit("/");
    }
    out.append("/");
    out.append(b);
    assert(out@ =~= spec_join(a@, b@));
    out
}

/// Whether `p` starts with the prefix `q`.
pub open spec fn spec_starts_with(p: Seq<char>, q: Seq<char>) -> bool {
    p.len() >= q.len() && p.subrange(0, q.len() as int) == q
}

/// Whether the string `p` starts with `q`.
pub fn starts_with(p: &str, q: &str) -> (r: bool)
    ensures
        r == spec_starts_with(p@, q@),
{
    let np = p.unicode_len();
    let nq = q.unicode_len();
    if np < nq {
        return false;
    }
    let mut i: usize = 0;
    while i < nq
        invariant
            0 <= i <= nq,
            np == p@.len(),
            nq == q@.len(),
            nq <= np,
            forall|j: int| 0 <= j < i ==> p@[j] == q@[j],
        decreases nq - i,
    {
        if p.get_char(i) != q.get_char(i) {
            assert(p@.subrange(0, nq as int)[i as int] != q@[i as int]);
            return false;
        }
        i = i + 1;
    }
    assert(p@.subrange(0, nq as int) =~= q@);
    true
}

/// Drops the first `n` characters of `p`.
pub fn drop_prefix(p: &str, n: usize) -> (r: String)
    requires
        n <= p@.len(),
    ensures
        r@ == p@.subrange(n as int, p@.len() as int),
{
    let len = p.unicode_len();
    let r = p.substring_char(n, len);
    r.to_owned()
}

/// The result of `char::to_uppercase`, flattened to its characters: an
/// uppercase mapping may be more than one character long.
pub uninterp spec fn spec_uppercase(c: char) -> Seq<char>;

/// Relies on char::to_uppercase: the uppercase mapping of a character
/// depends on that character alone.
#[verifier::external_body]
fn char_uppercase(c: char) -> (r: String)
    ensures
        r@ == spec_uppercase(c),
{
    let mut s = String::new();
    for u in c.to_uppercase() {
        s.push(u);
    }
    s
}

/// The first character of `s` uppercased, with the rest unchanged; empty
/// input yields empty output.
pub open spec fn spec_uppercase_first(s: Seq<char>) -> Seq<char> {
    if s.len() == 0 {
        Seq::empty()
    } else {
        spec_uppercase(s[0]) + s.subrange(1, s.len() as int)
    }
}

/// Uppercases the first character of `s`, keeping the rest.
pub fn some_kind_of_uppercase_first_letter(s: &str) -> (r: String)
    ensures
        r@ == spec_uppercase_first(s@),
{
    let n = s.unicode_len();
    if n == 0 {
        let r = String::new();
        assert(r@ =~= spec_uppercase_first(s@));
        r
    } else {
        let mut out = char_uppercase(s.get_char(0));
        let rest = s.substring_char(1, n);
        out.append(rest);
        assert(out@ =~= spec_uppercase_first(s@));
        out
    }
}

} // verus!
