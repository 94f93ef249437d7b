//! Parameter records for the macros, and the literal micro-grammar their
//! bracket blocks are decoded with: whitespace with `#` line comments,
//! double-quoted strings with backslash escapes, booleans, small integers in
//! decimal, hex or binary, arrays in `[` `]`, and string maps in `{` `}`.
//!
//! Each executable decoder is proved equal to a spec-level mirror of the
//! grammar, so a decoder's result is pinned down exactly.
use vstd::prelude::*;
use vstd::string::StrSliceExecFns;
use crate::text::{push_char, char_from_u32, char_of_scalar, push_string};
use vstd::utf8::is_scalar;

verus! {

/// Whitespace of the micro-grammar.
pub open spec fn is_ws(c: char) -> bool {
    c == ' ' || c == '\n' || c == '\r' || c == '\t'
}

/// Position after whitespace and `#` line comments, scanning from `i`;
/// `in_comment` says whether `i` stands inside a comment already.
pub open spec fn spec_skip_ws(s: Seq<char>, i: int, in_comment: bool) -> int
    decreases s.len() - i,
{
    if i < 0 || i >= s.len() {
        if i < 0 {
            i
        } else {
            s.len() as int
        }
    } else if in_comment {
        if s[i] == '\n' {
            spec_skip_ws(s, i + 1, false)
        } else {
            spec_skip_ws(s, i + 1, true)
        }
    } else if is_ws(s[i]) {
        spec_skip_ws(s, i + 1, false)
    } else if s[i] == '#' {
        spec_skip_ws(s, i + 1, true)
    } else {
        i
    }
}

/// Skipping whitespace never moves backwards and stays inside the text.
pub proof fn lemma_skip_ws_bounds(s: Seq<char>, i: int, in_comment: bool)
    requires
        0 <= i <= s.len(),
    ensures
        i <= spec_skip_ws(s, i, in_comment) <= s.len(),
    decreases s.len() - i,
{
    if i < s.len() {
        lemma_skip_ws_bounds(s, i + 1, true);
        lemma_skip_ws_bounds(s, i + 1, false);
    }
}

/// Skips whitespace and comments from `i`.
pub fn skip_ws(s: &str, i: usize) -> (j: usize)
    requires
        i <= s@.len(),
    ensures
        j == spec_skip_ws(s@, i as int, false),
        i <= j <= s@.len(),
{
    proof {
        lemma_skip_ws_bounds(s@, i as int, false);
    }
    skip_ws_rec(s, i, false)
}

fn skip_ws_rec(s: &str, i: usize, in_comment: bool) -> (j: usize)
    requires
        i <= s@.len(),
    ensures
        j == spec_skip_ws(s@, i as int, in_comment),
        i <= j <= s@.len(),
    decreases s@.len() - i,
{
    let n = s.unicode_len();
    if i >= n {
        return n;
    }
    let c = s.get_char(i);
    if in_comment {
        skip_ws_rec(s, i + 1, c != '\n')
    } else if c == ' ' || c == '\n' || c == '\r' || c == '\t' {
        skip_ws_rec(s, i + 1, false)
    } else if c == '#' {
        skip_ws_rec(s, i + 1, true)
    } else {
        i
    }
}

/// The value of a hex digit, or `None`.
pub open spec fn spec_hex_val(c: char) -> Option<u32> {
    if '0' <= c && c <= '9' {
        Some((c as u32 - '0' as u32) as u32)
    } else if 'a' <= c && c <= 'f' {
        Some((c as u32 - 'a' as u32 + 10) as u32)
    } else if 'A' <= c && c <= 'F' {
        Some((c as u32 - 'A' as u32 + 10) as u32)
    } else {
        None
    }
}

fn hex_val(c: char) -> (r: Option<u32>)
    ensures
        r == spec_hex_val(c),
{
    if '0' <= c && c <= '9' {
        Some(c as u32 - '0' as u32)
    } else if 'a' <= c && c <= 'f' {
        Some(c as u32 - 'a' as u32 + 10)
    } else if 'A' <= c && c <= 'F' {
        Some(c as u32 - 'A' as u32 + 10)
    } else {
        None
    }
}

/// Scans hex digits from `i`, accumulating `acc` with `count` digits read
/// so far; yields the scalar value, the digit count and the next position.
/// More than six digits abort.
pub open spec fn spec_unicode_digits(s: Seq<char>, i: int, acc: u32, count: int) -> Option<
    (u32, int, int),
>
    decreases s.len() - i,
{
    if i < 0 || i >= s.len() {
        Some((acc, count, if i < 0 { i } else { s.len() as int }))
    } else {
        match spec_hex_val(s[i]) {
            None => Some((acc, count, i)),
            Some(d) => {
                if count >= 6 {
                    None
                } else {
                    spec_unicode_digits(s, i + 1, mul16(acc, d), count + 1)
                }
            },
        }
    }
}

/// `acc * 16 + d`, the accumulation step of a hex scan; the digit count cap
/// keeps it within `u32`.
pub open spec fn mul16(acc: u32, d: u32) -> u32 {
    ((acc * 16 + d) % 0x1_0000_0000) as u32
}

/// `16 ^ c`, the bound an accumulator obeys after `c` hex digits.
pub open spec fn pow16(c: int) -> int
    decreases c,
{
    if c <= 0 {
        1
    } else {
        16 * pow16(c - 1)
    }
}

fn unicode_digits(s: &str, i: usize, acc: u32, count: usize) -> (r: Option<(u32, usize, usize)>)
    requires
        i <= s@.len(),
        count <= 6,
        acc < pow16(count as int),
    ensures
        match r {
            Some((v, c, j)) => {
                &&& spec_unicode_digits(s@, i as int, acc, count as int) == Some(
                    (v, c as int, j as int),
                )
                &&& i <= j <= s@.len()
            },
            None => spec_unicode_digits(s@, i as int, acc, count as int) is None,
        },
    decreases s@.len() - i,
{
    proof {
        lemma_pow16_bounds(count as int);
    }
    let n = s.unicode_len();
    if i >= n {
        return Some((acc, count, n));
    }
    match hex_val(s.get_char(i)) {
        None => Some((acc, count, i)),
        Some(d) => {
            if count >= 6 {
                None
            } else {
                assert(d < 16);
                proof {
                    lemma_pow16_bounds(count as int + 1);
                    assert(acc * 16 + d < pow16(count as int + 1)) by (nonlinear_arith)
                        requires
                            acc < pow16(count as int),
                            d < 16,
                            pow16(count as int + 1) == 16 * pow16(count as int),
                    ;
                }
                let acc2 = acc * 16 + d;
                assert(mul16(acc, d) == acc2);
                unicode_digits(s, i + 1, acc2, count + 1)
            }
        },
    }
}

/// `pow16` stays within `u32` up to the seven steps a unicode escape scan
/// can take.
proof fn lemma_pow16_bounds(c: int)
    requires
        c <= 7,
    ensures
        pow16(c) <= 0x10000000,
        pow16(c) >= 1,
{
    assert(pow16(0) == 1);
    assert(pow16(1) == 16);
    assert(pow16(2) == 256);
    assert(pow16(3) == 4096);
    assert(pow16(4) == 65536);
    assert(pow16(5) == 1048576);
    assert(pow16(6) == 16777216);
    assert(pow16(7) == 268435456);
    if c <= 0 {
    } else if c == 1 {
    } else if c == 2 {
    } else if c == 3 {
    } else if c == 4 {
    } else if c == 5 {
    } else if c == 6 {
    } else {
        assert(c == 7);
    }
}

/// Parses a `\{...}` unicode escape: `i` stands after the `{`. Yields the
/// character and the position after the closing `}`.
pub open spec fn spec_unicode_escape(s: Seq<char>, i: int) -> Option<(char, int)> {
    match spec_unicode_digits(s, i, 0, 0) {
        None => None,
        Some((v, count, j)) => {
            if count < 1 {
                None
            } else if !is_scalar(v) {
                None
            } else if j < s.len() && s[j] == '}' {
                Some((char_of_scalar(v), j + 1))
            } else {
                None
            }
        },
    }
}

fn unicode_escape(s: &str, i: usize) -> (r: Option<(char, usize)>)
    requires
        i <= s@.len(),
    ensures
        match r {
            Some((c, j)) => spec_unicode_escape(s@, i as int) == Some((c, j as int)) && i <= j
                <= s@.len(),
            None => spec_unicode_escape(s@, i as int) is None,
        },
{
    match unicode_digits(s, i, 0, 0) {
        None => None,
        Some((v, count, j)) => {
            if count < 1 {
                return None;
            }
            match char_from_u32(v) {
                None => None,
                Some(c) => {
                    proof {
                        assert(c as u32 == v);
                        vstd::utf8::char_u32_cast(c, v);
                        assert(c == char_of_scalar(v));
                        vstd::utf8::char_is_scalar(c);
                        assert(is_scalar(v));
                    }
                    let n = s.unicode_len();
                    if j < n && s.get_char(j) == '}' {
                        Some((c, j + 1))
                    } else {
                        None
                    }
                },
            }
        },
    }
}

/// The digit scan stays within the text.
pub proof fn lemma_unicode_digits_bounds(s: Seq<char>, i: int, acc: u32, count: int)
    requires
        0 <= i <= s.len(),
    ensures
        match spec_unicode_digits(s, i, acc, count) {
            Some((v, c, j)) => i <= j <= s.len(),
            None => true,
        },
    decreases s.len() - i,
{
    if i < s.len() {
        match spec_hex_val(s[i]) {
            None => {},
            Some(d) => {
                if count < 6 {
                    lemma_unicode_digits_bounds(s, i + 1, mul16(acc, d), count + 1);
                }
            },
        }
    }
}

/// Parses the body of a string literal: `i` stands after the opening quote.
/// Yields the decoded characters and the position after the closing quote.
pub open spec fn spec_str_body(s: Seq<char>, i: int) -> Option<(Seq<char>, int)>
    decreases s.len() - i,
    via spec_str_body_dec
{
    if i < 0 || i >= s.len() {
        None
    } else if s[i] == '"' {
        Some((Seq::empty(), i + 1))
    } else if s[i] == '\\' {
        if i + 1 >= s.len() {
            None
        } else {
            let e = s[i + 1];
            if e == '"' || e == '0' || e == '\\' || e == 'n' || e == 't' {
                let c = spec_escape_char(e);
                match spec_str_body(s, i + 2) {
                    None => None,
                    Some((t, j)) => Some((seq![c] + t, j)),
                }
            } else if e == '{' {
                match spec_unicode_escape(s, i + 2) {
                    None => None,
                    Some((c, k)) => match spec_str_body(s, k) {
                        None => None,
                        Some((t, j)) => Some((seq![c] + t, j)),
                    },
                }
            } else {
                None
            }
        }
    } else {
        match spec_str_body(s, i + 1) {
            None => None,
            Some((t, j)) => Some((seq![s[i]] + t, j)),
        }
    }
}

#[via_fn]
proof fn spec_str_body_dec(s: Seq<char>, i: int) {
    if 0 <= i && i + 2 <= s.len() {
        lemma_unicode_digits_bounds(s, i + 2, 0, 0);
    }
}

/// The character a simple backslash escape denotes.
pub open spec fn spec_escape_char(e: char) -> char {
    if e == '"' {
        '"'
    } else if e == '0' {
        '\0'
    } else if e == '\\' {
        '\\'
    } else if e == 'n' {
        '\n'
    } else {
        '\t'
    }
}

fn str_body(s: &str, i: usize) -> (r: Option<(String, usize)>)
    requires
        i <= s@.len(),
    ensures
        match r {
            Some((t, j)) => spec_str_body(s@, i as int) == Some((t@, j as int)) && i < j
                <= s@.len(),
            None => spec_str_body(s@, i as int) is None,
        },
    decreases s@.len() - i,
{
    let n = s.unicode_len();
    if i >= n {
        return None;
    }
    let c = s.get_char(i);
    if c == '"' {
        Some((String::new(), i + 1))
    } else if c == '\\' {
        if i + 1 >= n {
            return None;
        }
        let e = s.get_char(i + 1);
        if e == '"' || e == '0' || e == '\\' || e == 'n' || e == 't' {
            let dec: char = if e == '"' {
                '"'
            } else if e == '0' {
                '\0'
            } else if e == '\\' {
                '\\'
            } else if e == 'n' {
                '\n'
            } else {
                '\t'
            };
            match str_body(s, i + 2) {
                None => None,
                Some((t, j)) => {
                    let mut out = String::new();
                    push_char(&mut out, dec);
                    push_string(&mut out, &t);
                    assert(out@ =~= seq![spec_escape_char(e)] + t@);
                    Some((out, j))
                },
            }
        } else if e == '{' {
            match unicode_escape(s, i + 2) {
                None => None,
                Some((dec, k)) => {
                    match str_body(s, k) {
                        None => None,
                        Some((t, j)) => {
                            let mut out = String::new();
                            push_char(&mut out, dec);
                            push_string(&mut out, &t);
                            assert(out@ =~= seq![dec] + t@);
                            Some((out, j))
                        },
                    }
                },
            }
        } else {
            None
        }
    } else {
        match str_body(s, i + 1) {
            None => None,
            Some((t, j)) => {
                let mut out = String::new();
                push_char(&mut out, c);
                push_string(&mut out, &t);
                assert(out@ =~= seq![s@[i as int]] + t@);
                Some((out, j))
            },
        }
    }
}

/// Parses a whole string literal at `i`: a `"` followed by its body.
pub open spec fn spec_str_lit(s: Seq<char>, i: int) -> Option<(Seq<char>, int)> {
    if 0 <= i < s.len() && s[i] == '"' {
        spec_str_body(s, i + 1)
    } else {
        None
    }
}

pub fn str_lit(s: &str, i: usize) -> (r: Option<(String, usize)>)
    requires
        i <= s@.len(),
    ensures
        match r {
            Some((t, j)) => spec_str_lit(s@, i as int) == Some((t@, j as int)) && i < j
                <= s@.len(),
            None => spec_str_lit(s@, i as int) is None,
        },
{
    let n = s.unicode_len();
    if i < n && s.get_char(i) == '"' {
        str_body(s, i + 1)
    } else {
        None
    }
}

/// A successful string-literal parse lands strictly past its start and
/// inside the text.
pub proof fn lemma_str_body_bounds(s: Seq<char>, i: int)
    requires
        0 <= i <= s.len(),
    ensures
        match spec_str_body(s, i) {
            Some((t, j)) => i < j <= s.len(),
            None => true,
        },
    decreases s.len() - i,
{
    if i < s.len() {
        if s[i] == '\\' && i + 1 < s.len() {
            let e = s[i + 1];
            if e == '{' {
                lemma_unicode_digits_bounds(s, i + 2, 0, 0);
                match spec_unicode_escape(s, i + 2) {
                    None => {},
                    Some((c, k)) => {
                        lemma_str_body_bounds(s, k);
                    },
                }
            } else {
                if i + 2 <= s.len() {
                    lemma_str_body_bounds(s, i + 2);
                }
            }
        } else {
            lemma_str_body_bounds(s, i + 1);
        }
    }
}

/// The value of a digit under `radix`, or `None`.
pub open spec fn spec_digit_val(c: char, radix: u32) -> Option<u32> {
    if radix == 16 {
        spec_hex_val(c)
    } else if radix == 2 {
        if c == '0' {
            Some(0u32)
        } else if c == '1' {
            Some(1u32)
        } else {
            None
        }
    } else {
        if '0' <= c && c <= '9' {
            Some((c as u32 - '0' as u32) as u32)
        } else {
            None
        }
    }
}

fn digit_val(c: char, radix: u32) -> (r: Option<u32>)
    requires
        radix == 2 || radix == 10 || radix == 16,
    ensures
        r == spec_digit_val(c, radix),
{
    if radix == 16 {
        hex_val(c)
    } else if radix == 2 {
        if c == '0' {
            Some(0)
        } else if c == '1' {
            Some(1)
        } else {
            None
        }
    } else {
        if '0' <= c && c <= '9' {
            Some(c as u32 - '0' as u32)
        } else {
            None
        }
    }
}

/// Scans digits under `radix` from `i` accumulating `acc`; aborts once the
/// value leaves the range small parameters live in.
pub open spec fn spec_uint_digits(s: Seq<char>, i: int, radix: u32, acc: u32) -> Option<
    (u32, int),
>
    decreases s.len() - i,
{
    if i < 0 || i >= s.len() {
        Some((acc, if i < 0 { i } else { s.len() as int }))
    } else {
        match spec_digit_val(s[i], radix) {
            None => Some((acc, i)),
            Some(d) => {
                if acc * radix + d > 0xFFFF {
                    None
                } else {
                    spec_uint_digits(s, i + 1, radix, (acc * radix + d) as u32)
                }
            },
        }
    }
}

fn uint_digits(s: &str, i: usize, radix: u32, acc: u32) -> (r: Option<(u32, usize)>)
    requires
        i <= s@.len(),
        radix == 2 || radix == 10 || radix == 16,
        acc <= 0xFFFF,
    ensures
        match r {
            Some((v, j)) => spec_uint_digits(s@, i as int, radix, acc) == Some((v, j as int))
                && i <= j <= s@.len() && v <= 0xFFFF,
            None => spec_uint_digits(s@, i as int, radix, acc) is None,
        },
    decreases s@.len() - i,
{
    let n = s.unicode_len();
    if i >= n {
        return Some((acc, n));
    }
    match digit_val(s.get_char(i), radix) {
        None => Some((acc, i)),
        Some(d) => {
            assert(d < 16);
            let acc2 = acc * radix + d;
            if acc2 > 0xFFFF {
                None
            } else {
                uint_digits(s, i + 1, radix, acc2)
            }
        },
    }
}

/// Parses an unsigned integer literal at `i`: an optional sign, an optional
/// `0x` or `0b` radix prefix (on unsigned literals only), then digits. A
/// negative literal other than `-0` is rejected, as is a literal without
/// digits or one too large for a small parameter.
pub open spec fn spec_uint_lit(s: Seq<char>, i: int) -> Option<(u32, int)> {
    if i < 0 || i >= s.len() {
        None
    } else {
        let neg = s[i] == '-';
        let signed = neg || s[i] == '+';
        let i1 = if signed {
            i + 1
        } else {
            i
        };
        let hex = !signed && i1 + 1 < s.len() && s[i1] == '0' && s[i1 + 1] == 'x';
        let bin = !hex && !signed && i1 + 1 < s.len() && s[i1] == '0' && s[i1 + 1] == 'b';
        let radix: u32 = if hex {
            16
        } else if bin {
            2
        } else {
            10
        };
        let i2 = if hex || bin {
            i1 + 2
        } else {
            i1
        };
        if i2 > s.len() {
            None
        } else {
            match spec_uint_digits(s, i2, radix, 0) {
                None => None,
                Some((v, j)) => {
                    if j == i2 {
                        None
                    } else if neg && v != 0 {
                        None
                    } else {
                        Some((v, j))
                    }
                },
            }
        }
    }
}

pub fn uint_lit(s: &str, i: usize) -> (r: Option<(u32, usize)>)
    requires
        i <= s@.len(),
    ensures
        match r {
            Some((v, j)) => spec_uint_lit(s@, i as int) == Some((v, j as int)) && i <= j
                <= s@.len(),
            None => spec_uint_lit(s@, i as int) is None,
        },
{
    let n = s.unicode_len();
    if i >= n {
        return None;
    }
    let c = s.get_char(i);
    let neg = c == '-';
    let signed = neg || c == '+';
    let i1 = if signed {
        i + 1
    } else {
        i
    };
    let hex = !signed && i1 + 1 < n && s.get_char(i1) == '0' && s.get_char(i1 + 1) == 'x';
    let bin = !hex && !signed && i1 + 1 < n && s.get_char(i1) == '0' && s.get_char(i1 + 1) == 'b';
    let radix: u32 = if hex {
        16
    } else if bin {
        2
    } else {
        10
    };
    let i2 = if hex || bin {
        i1 + 2
    } else {
        i1
    };
    if i2 > n {
        return None;
    }
    match uint_digits(s, i2, radix, 0) {
        None => None,
        Some((v, j)) => {
            if j == i2 {
                None
            } else if neg && v != 0 {
                None
            } else {
                Some((v, j))
            }
        },
    }
}

/// Parses the literal word `true`, `false` or `nil` at `i`.
pub open spec fn spec_bool_lit(s: Seq<char>, i: int) -> Option<(bool, int)> {
    if 0 <= i && i + 5 <= s.len() && s[i] == 'f' && s[i + 1] == 'a' && s[i + 2] == 'l' && s[i + 3]
        == 's' && s[i + 4] == 'e' {
        Some((false, i + 5))
    } else if 0 <= i && i + 4 <= s.len() && s[i] == 't' && s[i + 1] == 'r' && s[i + 2] == 'u' && s[
        i + 3] == 'e' {
        Some((true, i + 4))
    } else {
        None
    }
}

pub fn bool_lit(s: &str, i: usize) -> (r: Option<(bool, usize)>)
    requires
        i <= s@.len(),
    ensures
        match r {
            Some((v, j)) => spec_bool_lit(s@, i as int) == Some((v, j as int)) && i < j
                <= s@.len(),
            None => spec_bool_lit(s@, i as int) is None,
        },
{
    let n = s.unicode_len();
    if n - i >= 5 && s.get_char(i) == 'f' && s.get_char(i + 1) == 'a' && s.get_char(i + 2) == 'l'
        && s.get_char(i + 3) == 's' && s.get_char(i + 4) == 'e' {
        Some((false, i + 5))
    } else if n - i >= 4 && s.get_char(i) == 't' && s.get_char(i + 1) == 'r' && s.get_char(i + 2)
        == 'u' && s.get_char(i + 3) == 'e' {
        Some((true, i + 4))
    } else {
        None
    }
}

/// Whether the literal word `nil` stands at `i`.
pub open spec fn spec_nil_lit(s: Seq<char>, i: int) -> Option<int> {
    if 0 <= i && i + 3 <= s.len() && s[i] == 'n' && s[i + 1] == 'i' && s[i + 2] == 'l' {
        Some(i + 3)
    } else {
        None
    }
}

pub fn nil_lit(s: &str, i: usize) -> (r: Option<usize>)
    requires
        i <= s@.len(),
    ensures
        match r {
            Some(j) => spec_nil_lit(s@, i as int) == Some(j as int) && i < j <= s@.len(),
            None => spec_nil_lit(s@, i as int) is None,
        },
{
    let n = s.unicode_len();
    if n - i >= 3 && s.get_char(i) == 'n' && s.get_char(i + 1) == 'i' && s.get_char(i + 2) == 'l' {
        Some(i + 3)
    } else {
        None
    }
}

/// Parses the elements of a string array: `i` stands after the `[` or after
/// an element. Yields the strings and the position after the `]`. A comma
/// directly after the `[` is accepted only on an otherwise empty array;
/// between elements a comma is consumed when present.
pub open spec fn spec_str_elems(s: Seq<char>, i: int, first: bool) -> Option<(Seq<Seq<char>>, int)>
    decreases s.len() - i, 1int,
    via spec_str_elems_dec
{
    let j = spec_skip_ws(s, i, false);
    if i < 0 || j >= s.len() {
        None
    } else if s[j] == ']' {
        Some((Seq::empty(), j + 1))
    } else if s[j] == ',' && first {
        let k = spec_skip_ws(s, j + 1, false);
        if k < s.len() && s[k] == ']' {
            Some((Seq::empty(), k + 1))
        } else {
            None
        }
    } else {
        match spec_str_lit(s, j) {
            None => None,
            Some((t, k)) => {
                let m = spec_skip_ws(s, k, false);
                let m2 = if m < s.len() && s[m] == ',' {
                    m + 1
                } else {
                    m
                };
                match spec_str_elems(s, m2, false) {
                    None => None,
                    Some((rest, e)) => Some((seq![t] + rest, e)),
                }
            },
        }
    }
}

#[via_fn]
proof fn spec_str_elems_dec(s: Seq<char>, i: int, first: bool) {
    if 0 <= i <= s.len() {
        lemma_skip_ws_bounds(s, i, false);
        let j = spec_skip_ws(s, i, false);
        if j < s.len() && s[j] == '"' {
            lemma_str_body_bounds(s, j + 1);
            match spec_str_lit(s, j) {
                None => {},
                Some((t, k)) => {
                    lemma_skip_ws_bounds(s, k, false);
                },
            }
        }
    }
}

fn str_elems(s: &str, i: usize, first: bool) -> (r: Option<(Vec<String>, usize)>)
    requires
        i <= s@.len(),
    ensures
        match r {
            Some((v, j)) => {
                &&& spec_str_elems(s@, i as int, first) is Some
                &&& spec_str_elems(s@, i as int, first).unwrap().1 == j as int
                &&& v.deep_view() == spec_str_elems(s@, i as int, first).unwrap().0
                &&& i < j <= s@.len()
            },
            None => spec_str_elems(s@, i as int, first) is None,
        },
    decreases s@.len() - i,
{
    let n = s.unicode_len();
    let j = skip_ws(s, i);
    if j >= n {
        return None;
    }
    let c = s.get_char(j);
    if c == ']' {
        let v: Vec<String> = Vec::new();
        assert(v.deep_view() =~= Seq::<Seq<char>>::empty());
        Some((v, j + 1))
    } else if c == ',' && first {
        let k = skip_ws(s, j + 1);
        if k < n && s.get_char(k) == ']' {
            let v: Vec<String> = Vec::new();
            assert(v.deep_view() =~= Seq::<Seq<char>>::empty());
            Some((v, k + 1))
        } else {
            None
        }
    } else {
        match str_lit(s, j) {
            None => None,
            Some((t, k)) => {
                let m = skip_ws(s, k);
                let m2 = if m < n && s.get_char(m) == ',' {
                    m + 1
                } else {
                    m
                };
                match str_elems(s, m2, false) {
                    None => None,
                    Some((rest, e)) => {
                        let ghost tv = t@;
                        let ghost restdv = rest.deep_view();
                        let mut v = rest;
                        v.insert(0, t);
                        proof {
                            assert(v.deep_view() =~= seq![tv] + restdv);
                        }
                        Some((v, e))
                    },
                }
            },
        }
    }
}

/// Parses a whole string array at `i` (after leading whitespace): `[`,
/// elements, `]`.
pub open spec fn spec_str_array(s: Seq<char>, i: int) -> Option<(Seq<Seq<char>>, int)> {
    let j = spec_skip_ws(s, i, false);
    if 0 <= i && j < s.len() && s[j] == '[' {
        spec_str_elems(s, j + 1, true)
    } else {
        None
    }
}

pub fn str_array(s: &str, i: usize) -> (r: Option<(Vec<String>, usize)>)
    requires
        i <= s@.len(),
    ensures
        match r {
            Some((v, j)) => {
                &&& spec_str_array(s@, i as int) is Some
                &&& spec_str_array(s@, i as int).unwrap().1 == j as int
                &&& v.deep_view() == spec_str_array(s@, i as int).unwrap().0
                &&& i < j <= s@.len()
            },
            None => spec_str_array(s@, i as int) is None,
        },
{
    let n = s.unicode_len();
    let j = skip_ws(s, i);
    if j < n && s.get_char(j) == '[' {
        str_elems(s, j + 1, true)
    } else {
        None
    }
}

/// The views of a list of string pairs.
pub open spec fn pairs_view(v: Seq<(String, String)>) -> Seq<(Seq<char>, Seq<char>)> {
    v.map_values(|p: (String, String)| (p.0@, p.1@))
}

/// Parses the entries of a string map: `i` stands after the `{` or after an
/// entry. Yields the key/value pairs in written order and the position after
/// the `}`.
pub open spec fn spec_map_entries(s: Seq<char>, i: int, first: bool) -> Option<
    (Seq<(Seq<char>, Seq<char>)>, int),
>
    decreases s.len() - i, 1int,
    via spec_map_entries_dec
{
    let j = spec_skip_ws(s, i, false);
    if i < 0 || j >= s.len() {
        None
    } else if s[j] == '}' {
        Some((Seq::empty(), j + 1))
    } else if s[j] == ',' && first {
        let k = spec_skip_ws(s, j + 1, false);
        if k < s.len() && s[k] == '}' {
            Some((Seq::empty(), k + 1))
        } else {
            None
        }
    } else {
        match spec_str_lit(s, j) {
            None => None,
            Some((key, k)) => {
                let m = spec_skip_ws(s, k, false);
                if m >= s.len() || s[m] != ':' {
                    None
                } else {
                    let m1 = spec_skip_ws(s, m + 1, false);
                    match spec_str_lit(s, m1) {
                        None => None,
                        Some((val, e)) => {
                            let f = spec_skip_ws(s, e, false);
                            let f2 = if f < s.len() && s[f] == ',' {
                                f + 1
                            } else {
                                f
                            };
                            match spec_map_entries(s, f2, false) {
                                None => None,
                                Some((rest, z)) => Some((seq![(key, val)] + rest, z)),
                            }
                        },
                    }
                }
            },
        }
    }
}

#[via_fn]
proof fn spec_map_entries_dec(s: Seq<char>, i: int, first: bool) {
    if 0 <= i <= s.len() {
        lemma_skip_ws_bounds(s, i, false);
        let j = spec_skip_ws(s, i, false);
        if j < s.len() && s[j] == '"' {
            lemma_str_body_bounds(s, j + 1);
            match spec_str_lit(s, j) {
                None => {},
                Some((key, k)) => {
                    lemma_skip_ws_bounds(s, k, false);
                    let m = spec_skip_ws(s, k, false);
                    if m < s.len() && s[m] == ':' {
                        lemma_skip_ws_bounds(s, m + 1, false);
                        let m1 = spec_skip_ws(s, m + 1, false);
                        if m1 < s.len() && s[m1] == '"' {
                            lemma_str_body_bounds(s, m1 + 1);
                            match spec_str_lit(s, m1) {
                                None => {},
                                Some((val, e)) => {
                                    lemma_skip_ws_bounds(s, e, false);
                                },
                            }
                        }
                    }
                },
            }
        }
    }
}

fn map_entries(s: &str, i: usize, first: bool) -> (r: Option<(Vec<(String, String)>, usize)>)
    requires
        i <= s@.len(),
    ensures
        match r {
            Some((v, j)) => {
                &&& spec_map_entries(s@, i as int, first) is Some
                &&& spec_map_entries(s@, i as int, first).unwrap().1 == j as int
                &&& pairs_view(v@) == spec_map_entries(s@, i as int, first).unwrap().0
                &&& i < j <= s@.len()
            },
            None => spec_map_entries(s@, i as int, first) is None,
        },
    decreases s@.len() - i,
{
    let n = s.unicode_len();
    let j = skip_ws(s, i);
    if j >= n {
        return None;
    }
    let c = s.get_char(j);
    if c == '}' {
        let v: Vec<(String, String)> = Vec::new();
        assert(pairs_view(v@) =~= Seq::<(Seq<char>, Seq<char>)>::empty());
        Some((v, j + 1))
    } else if c == ',' && first {
        let k = skip_ws(s, j + 1);
        if k < n && s.get_char(k) == '}' {
            let v: Vec<(String, String)> = Vec::new();
            assert(pairs_view(v@) =~= Seq::<(Seq<char>, Seq<char>)>::empty());
            Some((v, k + 1))
        } else {
            None
        }
    } else {
        match str_lit(s, j) {
            None => None,
            Some((key, k)) => {
                let m = skip_ws(s, k);
                if m >= n || s.get_char(m) != ':' {
                    None
                } else {
                    let m1 = skip_ws(s, m + 1);
                    match str_lit(s, m1) {
                        None => None,
                        Some((val, e)) => {
                            let f = skip_ws(s, e);
                            let f2 = if f < n && s.get_char(f) == ',' {
                                f + 1
                            } else {
                                f
                            };
                            match map_entries(s, f2, false) {
                                None => None,
                                Some((rest, z)) => {
                                    let ghost kv = key@;
                                    let ghost vv = val@;
                                    let ghost restpv = pairs_view(rest@);
                                    let mut v = rest;
                                    v.insert(0, (key, val));
                                    proof {
                                        assert(pairs_view(v@) =~= seq![(kv, vv)] + restpv);
                                    }
                                    Some((v, z))
                                },
                            }
                        },
                    }
                }
            },
        }
    }
}

/// Parses a whole string map at `i` (after leading whitespace): `{`,
/// entries, `}`.
pub open spec fn spec_str_map(s: Seq<char>, i: int) -> Option<(Seq<(Seq<char>, Seq<char>)>, int)> {
    let j = spec_skip_ws(s, i, false);
    if 0 <= i && j < s.len() && s[j] == '{' {
        spec_map_entries(s, j + 1, true)
    } else {
        None
    }
}

pub fn str_map(s: &str, i: usize) -> (r: Option<(Vec<(String, String)>, usize)>)
    requires
        i <= s@.len(),
    ensures
        match r {
            Some((v, j)) => {
                &&& spec_str_map(s@, i as int) is Some
                &&& spec_str_map(s@, i as int).unwrap().1 == j as int
                &&& pairs_view(v@) == spec_str_map(s@, i as int).unwrap().0
                &&& i < j <= s@.len()
            },
            None => spec_str_map(s@, i as int) is None,
        },
{
    let n = s.unicode_len();
    let j = skip_ws(s, i);
    if j < n && s.get_char(j) == '{' {
        map_entries(s, j + 1, true)
    } else {
        None
    }
}

/// Parses a one-element array of a small unsigned integer: `[`, the number,
/// an optional trailing comma, `]`.
pub open spec fn spec_u8_array1(s: Seq<char>, i: int) -> Option<(u8, int)> {
    let j = spec_skip_ws(s, i, false);
    if i < 0 || j >= s.len() || s[j] != '[' {
        None
    } else {
        let k = spec_skip_ws(s, j + 1, false);
        match spec_uint_lit(s, k) {
            None => None,
            Some((v, m)) => {
                if v > 255 {
                    None
                } else {
                    let f = spec_skip_ws(s, m, false);
                    let f2 = if f < s.len() && s[f] == ',' {
                        f + 1
                    } else {
                        f
                    };
                    let g = spec_skip_ws(s, f2, false);
                    if g < s.len() && s[g] == ']' {
                        Some((v as u8, g + 1))
                    } else {
                        None
                    }
                }
            },
        }
    }
}

pub fn u8_array1(s: &str, i: usize) -> (r: Option<(u8, usize)>)
    requires
        i <= s@.len(),
    ensures
        match r {
            Some((v, j)) => spec_u8_array1(s@, i as int) == Some((v, j as int)) && i < j
                <= s@.len(),
            None => spec_u8_array1(s@, i as int) is None,
        },
{
    let n = s.unicode_len();
    let j = skip_ws(s, i);
    if j >= n || s.get_char(j) != '[' {
        return None;
    }
    let k = skip_ws(s, j + 1);
    match uint_lit(s, k) {
        None => None,
        Some((v, m)) => {
            if v > 255 {
                None
            } else {
                let f = skip_ws(s, m);
                let f2 = if f < n && s.get_char(f) == ',' {
                    f + 1
                } else {
                    f
                };
                let g = skip_ws(s, f2);
                if g < n && s.get_char(g) == ']' {
                    Some((v as u8, g + 1))
                } else {
                    None
                }
            }
        },
    }
}

/// Parses a one-element array of a boolean.
pub open spec fn spec_bool_array1(s: Seq<char>, i: int) -> Option<(bool, int)> {
    let j = spec_skip_ws(s, i, false);
    if i < 0 || j >= s.len() || s[j] != '[' {
        None
    } else {
        let k = spec_skip_ws(s, j + 1, false);
        match spec_bool_lit(s, k) {
            None => None,
            Some((v, m)) => {
                let f = spec_skip_ws(s, m, false);
                let f2 = if f < s.len() && s[f] == ',' {
                    f + 1
                } else {
                    f
                };
                let g = spec_skip_ws(s, f2, false);
                if g < s.len() && s[g] == ']' {
                    Some((v, g + 1))
                } else {
                    None
                }
            },
        }
    }
}

pub fn bool_array1(s: &str, i: usize) -> (r: Option<(bool, usize)>)
    requires
        i <= s@.len(),
    ensures
        match r {
            Some((v, j)) => spec_bool_array1(s@, i as int) == Some((v, j as int)) && i < j
                <= s@.len(),
            None => spec_bool_array1(s@, i as int) is None,
        },
{
    let n = s.unicode_len();
    let j = skip_ws(s, i);
    if j >= n || s.get_char(j) != '[' {
        return None;
    }
    let k = skip_ws(s, j + 1);
    match bool_lit(s, k) {
        None => None,
        Some((v, m)) => {
            let f = skip_ws(s, m);
            let f2 = if f < n && s.get_char(f) == ',' {
                f + 1
            } else {
                f
            };
            let g = skip_ws(s, f2);
            if g < n && s.get_char(g) == ']' {
                Some((v, g + 1))
            } else {
                None
            }
        },
    }
}

/// Parses a bare string literal parameter (after leading whitespace).
pub open spec fn spec_bare_string(s: Seq<char>, i: int) -> Option<(Seq<char>, int)> {
    let j = spec_skip_ws(s, i, false);
    if 0 <= i {
        spec_str_lit(s, j)
    } else {
        None
    }
}

pub fn bare_string(s: &str, i: usize) -> (r: Option<(String, usize)>)
    requires
        i <= s@.len(),
    ensures
        match r {
            Some((t, j)) => spec_bare_string(s@, i as int) == Some((t@, j as int)) && i < j
                <= s@.len(),
            None => spec_bare_string(s@, i as int) is None,
        },
{
    let j = skip_ws(s, i);
    str_lit(s, j)
}

/// Parameters of the document template macro: none.
pub struct Template;

impl Default for Template {
    fn default() -> (r: Template) {
        Template
    }
}

/// Parameters of a section heading: its id.
pub struct HSection(pub String);

impl Default for HSection {
    fn default() -> (r: HSection)
        ensures
            r.0@ == Seq::<char>::empty(),
    {
        HSection(String::new())
    }
}

/// Parameters of a cross-reference: none.
pub struct Cref;

impl Default for Cref {
    fn default() -> (r: Cref) {
        Cref
    }
}

/// Parameters of a numbered box: its id, then optionally CSS classes.
pub struct BoxParams(pub Vec<String>);

impl Default for BoxParams {
    fn default() -> (r: BoxParams)
        ensures
            r.0@.len() == 1,
            r.0@[0]@ == Seq::<char>::empty(),
    {
        let mut v: Vec<String> = Vec::new();
        v.push(String::new());
        BoxParams(v)
    }
}

/// Parameters of a proof box: the id of the claim proven, then optionally a
/// heading prefix and an own id.
pub struct Proof(pub Vec<String>);

impl Default for Proof {
    fn default() -> (r: Proof)
        ensures
            r.0@.len() == 0,
    {
        Proof(Vec::new())
    }
}

/// Parameters of a term definition: the id, then optionally the term under
/// which it is registered.
pub struct Define(pub Vec<String>);

impl Default for Define {
    fn default() -> (r: Define)
        ensures
            r.0@.len() == 1,
            r.0@[0]@ == Seq::<char>::empty(),
    {
        let mut v: Vec<String> = Vec::new();
        v.push(String::new());
        Define(v)
    }
}

/// Parameters of a TeX run: none.
pub struct TeX;

impl Default for TeX {
    fn default() -> (r: TeX) {
        TeX
    }
}

/// Parameters for binding a math macro to an id: the macro's name and the
/// id it links to.
pub struct SetMathId(pub String, pub String);

impl Default for SetMathId {
    fn default() -> (r: SetMathId)
        ensures
            r.0@ == Seq::<char>::empty(),
            r.1@ == Seq::<char>::empty(),
    {
        SetMathId(String::new(), String::new())
    }
}

/// Parameters of a case marker: its id, empty for an unlinkable case.
pub struct Case(pub String);

impl Default for Case {
    fn default() -> (r: Case)
        ensures
            r.0@ == Seq::<char>::empty(),
    {
        Case(String::new())
    }
}

/// Parameters of a math macro: whether to render without a link.
pub struct MathMacro(pub bool);

impl Default for MathMacro {
    fn default() -> (r: MathMacro)
        ensures
            r.0 == false,
    {
        MathMacro(false)
    }
}

/// Parameters of a toggled block: the id its button carries.
pub struct Toggled(pub String);

impl Default for Toggled {
    fn default() -> (r: Toggled)
        ensures
            r.0@ == Seq::<char>::empty(),
    {
        Toggled(String::new())
    }
}

/// Parameters of a math set: the delimiter sizing level.
pub struct MathSet(pub u8);

impl Default for MathSet {
    fn default() -> (r: MathSet)
        ensures
            r.0 == 99,
    {
        MathSet(99)
    }
}

/// Parameters of a set-builder expression: the delimiter sizing level.
pub struct MathSetBuilder(pub u8);

impl Default for MathSetBuilder {
    fn default() -> (r: MathSetBuilder)
        ensures
            r.0 == 99,
    {
        MathSetBuilder(99)
    }
}

} // verus!
