//! The scanner and parser: turns the text of one file into an unbound call
//! tree. A designated sigil character starts special handling: a doubled
//! sigil is a literal sigil; sigil + `(` or `)` is a literal parenthesis,
//! so real parentheses do not collide with argument grouping; sigil + `#`
//! starts a line comment that is discarded; any other sigil + bareword is a
//! macro name. An optional bracket block directly after the name is decoded
//! as the macro's parameter literal, and each directly following
//! parenthesis group is parsed recursively as one argument subtree.
//!
//! Positions are character offsets; `off` shifts them into the one
//! coordinate space shared by all files of a run, so `off + pos` is the
//! global position that traces record.
use vstd::prelude::*;
use vstd::string::StrSliceExecFns;
use crate::ast::{OutInternal, texts_concat, flat_text, text_run, lemma_texts_concat_push};
use crate::errors::ParseError;
use crate::params;
use crate::state::{BoxKind, OtherBoxKind};
use crate::text::str_eq;
use crate::trace::Trace;

verus! {

/// The sigil character introducing macro syntax.
pub open spec fn spec_sigil() -> char {
    '\u{a7}'
}

/// Whether a character is markup whitespace.
pub open spec fn spec_m_ws(c: char) -> bool {
    c == ' ' || c == '\n' || c == '\r' || c == '\t'
}

fn is_m_ws(c: char) -> (r: bool)
    ensures
        r == spec_m_ws(c),
{
    c == ' ' || c == '\n' || c == '\r' || c == '\t'
}

/// Whether a character ends a macro bareword.
pub open spec fn spec_name_end(c: char) -> bool {
    spec_m_ws(c) || c == spec_sigil() || c == '[' || c == '{' || c == '(' || c == ')'
}

fn is_name_end(c: char) -> (r: bool)
    ensures
        r == spec_name_end(c),
{
    is_m_ws(c) || c == '\u{a7}' || c == '[' || c == '{' || c == '(' || c == ')'
}

/// What a macro bareword constructs: the shape of the node, together with
/// the constant material the macro contributes.
pub enum Ctor {
    EmptyMacro,
    HtmlTag(String),
    P,
    Input,
    Output(bool),
    CopyAll,
    Template,
    HSection(bool),
    DropContent,
    Const(String),
    Cref,
    Cases,
    CaseOf,
    ChapterNav,
    TeX(bool),
    Fleqn,
    Cwd,
    SetDomain,
    BoxOf(BoxKind, String),
    Fact(String, bool),
    ProofBox,
    Define(bool),
    ProofPart,
    ReferenceDefined(bool, bool, bool),
    Enclose(String, String),
    Enclose2(String, String, String),
    Toggled(String, String),
    Link,
    Captioned,
    SetMathId,
    MathSet,
    MathSetBuilder,
    MathEnv(String),
    MathMacro(String, String),
    EncloseFunctionApplication(String, String),
    MathGroupingParens,
}

/// Position after a line comment: everything up to and including the next
/// newline, or the end of the text.
pub open spec fn spec_skip_line(s: Seq<char>, i: int) -> int
    decreases s.len() - i,
{
    if i < 0 {
        i
    } else if i >= s.len() {
        s.len() as int
    } else if s[i] == '\n' {
        i + 1
    } else {
        spec_skip_line(s, i + 1)
    }
}

/// Skipping a comment line never moves backwards and stays in the text.
pub proof fn lemma_skip_line_bounds(s: Seq<char>, i: int)
    requires
        0 <= i <= s.len(),
    ensures
        i <= spec_skip_line(s, i) <= s.len(),
    decreases s.len() - i,
{
    if i < s.len() && s[i] != '\n' {
        lemma_skip_line_bounds(s, i + 1);
    }
}

/// Skips a line comment: everything up to and including the next newline.
fn skip_line(s: &str, pos: usize) -> (r: usize)
    requires
        pos <= s@.len(),
    ensures
        r == spec_skip_line(s@, pos as int),
        pos <= r <= s@.len(),
    decreases s@.len() - pos,
{
    let n = s.unicode_len();
    if pos >= n {
        n
    } else if s.get_char(pos) == '\n' {
        pos + 1
    } else {
        skip_line(s, pos + 1)
    }
}

/// Position after the leading whitespace of a fragment, line comments
/// included.
pub open spec fn spec_skip_leading(s: Seq<char>, i: int) -> int
    decreases s.len() - i,
    via spec_skip_leading_dec
{
    if i < 0 || i >= s.len() {
        if i < 0 {
            i
        } else {
            s.len() as int
        }
    } else if s[i] == spec_sigil() && i + 1 < s.len() && s[i + 1] == '#' {
        spec_skip_leading(s, spec_skip_line(s, i + 2))
    } else if spec_m_ws(s[i]) {
        spec_skip_leading(s, i + 1)
    } else {
        i
    }
}

#[via_fn]
proof fn spec_skip_leading_dec(s: Seq<char>, i: int) {
    if 0 <= i && i + 2 <= s.len() {
        lemma_skip_line_bounds(s, i + 2);
    }
}

/// Skipping leading whitespace never moves backwards and stays in the
/// text.
pub proof fn lemma_skip_leading_bounds(s: Seq<char>, i: int)
    requires
        0 <= i <= s.len(),
    ensures
        i <= spec_skip_leading(s, i) <= s.len(),
    decreases s.len() - i,
{
    if i < s.len() {
        if s[i] == spec_sigil() && i + 1 < s.len() && s[i + 1] == '#' {
            lemma_skip_line_bounds(s, i + 2);
            lemma_skip_leading_bounds(s, spec_skip_line(s, i + 2));
        } else if spec_m_ws(s[i]) {
            lemma_skip_leading_bounds(s, i + 1);
        }
    }
}

/// Skips the leading whitespace of a fragment, line comments included.
fn skip_leading_ws(s: &str, pos: usize) -> (r: usize)
    requires
        pos <= s@.len(),
    ensures
        r == spec_skip_leading(s@, pos as int),
        pos <= r <= s@.len(),
    decreases s@.len() - pos,
{
    let n = s.unicode_len();
    if pos >= n {
        return n;
    }
    let c = s.get_char(pos);
    if c == '\u{a7}' && pos + 1 < n && s.get_char(pos + 1) == '#' {
        let after = skip_line(s, pos + 2);
        proof {
            lemma_skip_line_bounds(s@, pos as int + 2);
        }
        skip_leading_ws(s, after)
    } else if is_m_ws(c) {
        skip_leading_ws(s, pos + 1)
    } else {
        pos
    }
}

/// The guarded raw slice `start..stop` of the source, as the scanner
/// flushes it: empty where the window is inverted or out of bounds.
pub open spec fn slice_guard(s: Seq<char>, start: int, stop: int) -> Seq<char> {
    if 0 <= start <= stop <= s.len() {
        s.subrange(start, stop)
    } else {
        Seq::empty()
    }
}

/// What a literal fragment scans to, from `i` with the scanner's run state:
/// `acc` is the text of the runs already flushed, `pend` the decoded escape
/// literals of the current run, `start..last` its raw-slice window. A
/// doubled sigil is a literal sigil, sigil + parenthesis a literal
/// parenthesis, sigil + `#` discards the line; `None` as soon as the
/// fragment leaves the literal regime — a macro bareword or a bare
/// parenthesis.
pub open spec fn spec_literal_scan(
    s: Seq<char>,
    i: int,
    start: int,
    last: int,
    pend: Seq<char>,
    acc: Seq<char>,
) -> Option<Seq<char>>
    decreases s.len() - i,
    via spec_literal_scan_dec
{
    if i < 0 {
        None
    } else if i >= s.len() {
        Some(acc + pend + slice_guard(s, start, last))
    } else {
        let c = s[i];
        if c == spec_sigil() {
            let acc2 = acc + pend + slice_guard(s, start, i);
            if i + 1 < s.len() && s[i + 1] == spec_sigil() {
                spec_literal_scan(s, i + 2, i + 2, i + 2, seq![spec_sigil()], acc2)
            } else if i + 1 < s.len() && s[i + 1] == '(' {
                spec_literal_scan(s, i + 2, i + 2, i + 2, seq!['('], acc2)
            } else if i + 1 < s.len() && s[i + 1] == ')' {
                spec_literal_scan(s, i + 2, i + 2, i + 2, seq![')'], acc2)
            } else if i + 1 < s.len() && s[i + 1] == '#' {
                spec_literal_scan(
                    s,
                    spec_skip_line(s, i + 2),
                    spec_skip_line(s, i + 2),
                    last,
                    Seq::empty(),
                    acc2,
                )
            } else {
                None
            }
        } else if c == '(' || c == ')' {
            None
        } else if spec_m_ws(c) {
            spec_literal_scan(s, i + 1, start, last, pend, acc)
        } else {
            spec_literal_scan(s, i + 1, start, i + 1, pend, acc)
        }
    }
}

#[via_fn]
proof fn spec_literal_scan_dec(
    s: Seq<char>,
    i: int,
    start: int,
    last: int,
    pend: Seq<char>,
    acc: Seq<char>,
) {
    if 0 <= i && i + 2 <= s.len() {
        lemma_skip_line_bounds(s, i + 2);
    }
}

/// The end of a bareword starting at `i`: the first name-ending character
/// or the end of the text.
pub open spec fn spec_scan_name_end(s: Seq<char>, i: int) -> int
    decreases s.len() - i,
{
    if i < 0 {
        i
    } else if i >= s.len() {
        s.len() as int
    } else if spec_name_end(s[i]) {
        i
    } else {
        spec_scan_name_end(s, i + 1)
    }
}

/// The first macro bareword a fragment reaches, walking over literal text,
/// escapes and comments: `None` where the fragment ends, or leaves the
/// regime through a bare parenthesis, before any bareword starts.
pub open spec fn spec_first_bareword(s: Seq<char>, i: int) -> Option<Seq<char>>
    decreases s.len() - i,
    via spec_first_bareword_dec
{
    if i < 0 || i >= s.len() {
        None
    } else if s[i] == spec_sigil() {
        if i + 1 < s.len() && (s[i + 1] == spec_sigil() || s[i + 1] == '(' || s[i + 1] == ')') {
            spec_first_bareword(s, i + 2)
        } else if i + 1 < s.len() && s[i + 1] == '#' {
            spec_first_bareword(s, spec_skip_line(s, i + 2))
        } else if i + 1 <= s.len() {
            Some(s.subrange(i + 1, spec_scan_name_end(s, i + 1)))
        } else {
            None
        }
    } else if s[i] == '(' || s[i] == ')' {
        None
    } else {
        spec_first_bareword(s, i + 1)
    }
}

#[via_fn]
proof fn spec_first_bareword_dec(s: Seq<char>, i: int) {
    if 0 <= i && i + 2 <= s.len() {
        lemma_skip_line_bounds(s, i + 2);
    }
}

/// The bareword scan stays within the text.
pub proof fn lemma_scan_name_bounds(s: Seq<char>, i: int)
    requires
        0 <= i <= s.len(),
    ensures
        i <= spec_scan_name_end(s, i) <= s.len(),
    decreases s.len() - i,
{
    if i < s.len() && !spec_name_end(s[i]) {
        lemma_scan_name_bounds(s, i + 1);
    }
}

/// Leading whitespace and comments hold no bareword: the walk from a
/// position and from past its leading whitespace agree.
proof fn lemma_first_bareword_leading(s: Seq<char>, i: int)
    requires
        0 <= i <= s.len(),
    ensures
        spec_first_bareword(s, i) == spec_first_bareword(s, spec_skip_leading(s, i)),
    decreases s.len() - i,
{
    if i < s.len() {
        if s[i] == spec_sigil() && i + 1 < s.len() && s[i + 1] == '#' {
            lemma_skip_line_bounds(s, i + 2);
            lemma_first_bareword_leading(s, spec_skip_line(s, i + 2));
        } else if spec_m_ws(s[i]) {
            lemma_first_bareword_leading(s, i + 1);
        }
    }
}

/// Where a literal fragment ends, scanned from `i` inside `depth` open
/// argument groups: a bare `(` opens one more, a bare `)` closes one and
/// ends the fragment just past itself when it closes the last, while
/// escaped parentheses stay plain text; the end of the input ends the
/// fragment regardless. `None` once a macro bareword starts, of which
/// nothing is said here.
pub open spec fn spec_group_end(s: Seq<char>, i: int, depth: int) -> Option<int>
    decreases s.len() - i,
    via spec_group_end_dec
{
    if i < 0 || depth < 1 {
        None
    } else if i >= s.len() {
        Some(s.len() as int)
    } else {
        let c = s[i];
        if c == spec_sigil() {
            if i + 1 < s.len() && (s[i + 1] == spec_sigil() || s[i + 1] == '(' || s[i + 1]
                == ')') {
                spec_group_end(s, i + 2, depth)
            } else if i + 1 < s.len() && s[i + 1] == '#' {
                spec_group_end(s, spec_skip_line(s, i + 2), depth)
            } else {
                None
            }
        } else if c == '(' {
            spec_group_end(s, i + 1, depth + 1)
        } else if c == ')' {
            if depth == 1 {
                Some(i + 1)
            } else {
                spec_group_end(s, i + 1, depth - 1)
            }
        } else {
            spec_group_end(s, i + 1, depth)
        }
    }
}

#[via_fn]
proof fn spec_group_end_dec(s: Seq<char>, i: int, depth: int) {
    if 0 <= i && i + 2 <= s.len() {
        lemma_skip_line_bounds(s, i + 2);
    }
}

/// Whether the fragment holds no sigil at all past its leading whitespace:
/// pure text in one run.
pub open spec fn no_sigil_after(s: Seq<char>, pos: int) -> bool {
    forall|j: int| spec_skip_leading(s, pos) <= j < s.len() ==> s[j] != spec_sigil()
}

/// What a whole literal fragment starting at `pos` scans to: its leading
/// whitespace and comments dropped, escapes decoded, the trailing
/// whitespace of the final run trimmed. `None` where the fragment holds a
/// macro invocation or a bare parenthesis, of which nothing is said here.
pub open spec fn spec_literal(s: Seq<char>, pos: int) -> Option<Seq<char>> {
    if 0 <= pos <= s.len() {
        let l = spec_skip_leading(s, pos);
        spec_literal_scan(s, l, l, l, Seq::empty(), Seq::empty())
    } else {
        None
    }
}

/// Scans a macro bareword: the characters from `pos` up to the first
/// name-ending character.
fn scan_name(s: &str, pos: usize) -> (r: usize)
    requires
        pos <= s@.len(),
    ensures
        r == spec_scan_name_end(s@, pos as int),
        pos <= r <= s@.len(),
        forall|j: int| pos <= j < r ==> !spec_name_end(s@[j]),
        r < s@.len() ==> spec_name_end(s@[r as int]),
    decreases s@.len() - pos,
{
    let n = s.unicode_len();
    if pos >= n {
        n
    } else if is_name_end(s.get_char(pos)) {
        pos
    } else {
        scan_name(s, pos + 1)
    }
}

pub const LOREM: &'static str = "Lorem ipsum dolor sit amet, consectetuer adipiscing elit. Aenean commodo ligula eget dolor. Aenean massa. Cum sociis natoque penatibus et magnis dis parturient montes, nascetur ridiculus mus. Donec quam felis, ultricies nec, pellentesque eu, pretium quis, sem. Nulla consequat massa quis enim.";

pub const EULER_SVG: &'static str = "<svg version=\"1.1\" viewBox=\"-100 -100 200 200\" xmlns=\"http://www.w3.org/2000/svg\" class=\"eulersvg\">\n<path class=\"cd1 bgclll1\" d=\"M -66.57395614066075 -39.131189606246295 A 17.5 17.5 0 0 0 -76.86019805577904 -7.473392204684714 L 30.858725745354857, 70.78898700780789 A 17.5 17.5 0 0 0 57.78845669563833 62.03898700780788 L 83.21744517582593, -16.223392204684764 A 17.5 17.5 0 0 0 66.57395614066074 -39.13118960624634 L -66.57395614066075, -39.131189606246295\"></path>\n<path class=\"cd3 bgclll3\" d=\"M -49.961746444860204 44.49593469062212 A 15 15 0 0 0 -32.328188876086 68.76644452187054 L 75.39073492504784, -9.495934690622128 A 15 15 0 0 0 57.757177356273644 -33.76644452187055 L -49.961746444860204, 44.49593469062212\"></path>\n\n<text x=\"0\" y=\"-70\">&#xe904;</text>\n<text x=\"66.57\" y=\"-21.6311\">&#xe903;</text>\n<text x=\"41.1449\" y=\"56.6311\">&#xe902;</text>\n<text x=\"-41.1449\" y=\"56.6311\">&#xe901;</text>\n<text x=\"-66.57\" y=\"-21.6311\">&#xe900;</text>\n</svg>";

pub const EULER_SVG_EQUALITY: &'static str = "<svg version=\"1.1\" viewBox=\"-100 -100 200 200\" xmlns=\"http://www.w3.org/2000/svg\" class=\"eulersvg\">\n<path class=\"cd1 bgclll1\" d=\"M -66.57395614066075 -39.131189606246295 A 17.5 17.5 0 0 0 -76.86019805577904 -7.473392204684714 L 30.858725745354857, 70.78898700780789 A 17.5 17.5 0 0 0 57.78845669563833 62.03898700780788 L 83.21744517582593, -16.223392204684764 A 17.5 17.5 0 0 0 66.57395614066074 -39.13118960624634 L -66.57395614066075, -39.131189606246295\"></path>\n<path class=\"cd3 bgclll3\" d=\"M -49.961746444860204 44.49593469062212 A 15 15 0 0 0 -32.328188876086 68.76644452187054 L 75.39073492504784, -9.495934690622128 A 15 15 0 0 0 57.757177356273644 -33.76644452187055 L -49.961746444860204, 44.49593469062212\"></path>\n\n<text x=\"0\" y=\"-70\">&#xe904;</text>\n<text x=\"66.57\" y=\"-21.6311\">&#xe903;</text>\n<text class=\"obstruction\" x=\"41.1449\" y=\"56.6311\">&#xe902;</text>\n<text class=\"obstruction\" x=\"-41.1449\" y=\"56.6311\">&#xe901;</text>\n<text class=\"obstruction\" x=\"-66.57\" y=\"-21.6311\">&#xe900;</text>\n</svg>";

pub const EULER_SVG_INTERSECTION: &'static str = "<svg version=\"1.1\" viewBox=\"-100 -100 200 200\" xmlns=\"http://www.w3.org/2000/svg\" class=\"eulersvg\">\n<path class=\"cd1 bgclll1\" d=\"M -66.57395614066075 -39.131189606246295 A 17.5 17.5 0 0 0 -76.86019805577904 -7.473392204684714 L 30.858725745354857, 70.78898700780789 A 17.5 17.5 0 0 0 57.78845669563833 62.03898700780788 L 83.21744517582593, -16.223392204684764 A 17.5 17.5 0 0 0 66.57395614066074 -39.13118960624634 L -66.57395614066075, -39.131189606246295\"></path>\n<path class=\"cd3 bgclll3\" d=\"M -49.961746444860204 44.49593469062212 A 15 15 0 0 0 -32.328188876086 68.76644452187054 L 75.39073492504784, -9.495934690622128 A 15 15 0 0 0 57.757177356273644 -33.76644452187055 L -49.961746444860204, 44.49593469062212\"></path>\n\n<clipPath id=\"intersection_clip1_euler\">\n<path id=\"intersection_clip1_euler_path\" class=\"euler clip\" d=\"M -66.57395614066075 -39.131189606246295 A 17.5 17.5 0 0 0 -76.86019805577904 -7.473392204684714 L 30.858725745354857, 70.78898700780789 A 17.5 17.5 0 0 0 57.78845669563833 62.03898700780788 L 83.21744517582593, -16.223392204684764 A 17.5 17.5 0 0 0 66.57395614066074 -39.13118960624634 L -66.57395614066075, -39.131189606246295\"></path>\n</clipPath>\n<clipPath id=\"intersection_clip2_euler\" clip-path=\"url('#intersection_clip1_euler')\">\n<path id=\"intersection_clip2_euler_path\" class=\"euler clip\" d=\"M -49.961746444860204 44.49593469062212 A 15 15 0 0 0 -32.328188876086 68.76644452187054 L 75.39073492504784, -9.495934690622128 A 15 15 0 0 0 57.757177356273644 -33.76644452187055 L -49.961746444860204, 44.49593469062212\"></path>\n</clipPath>\n<mask id=\"intersection_mask_euler\">\n<rect fill=\"white\" x=\"-100\" y=\"-100\" width=\"200\" height=\"200\"/>\n<path id=\"intersection_mask1_euler_path\" class=\"euler mask\" d=\"M -66.57395614066075 -39.131189606246295 A 17.5 17.5 0 0 0 -76.86019805577904 -7.473392204684714 L 30.858725745354857, 70.78898700780789 A 17.5 17.5 0 0 0 57.78845669563833 62.03898700780788 L 83.21744517582593, -16.223392204684764 A 17.5 17.5 0 0 0 66.57395614066074 -39.13118960624634 L -66.57395614066075, -39.131189606246295\"></path>\n<path id=\"intersection_mask2_euler_path\" class=\"euler mask\" d=\"M -49.961746444860204 44.49593469062212 A 15 15 0 0 0 -32.328188876086 68.76644452187054 L 75.39073492504784, -9.495934690622128 A 15 15 0 0 0 57.757177356273644 -33.76644452187055 L -49.961746444860204, 44.49593469062212\"></path>\n</mask>\n\n<rect class=\"euler_yay\" clip-path=\"url('#intersection_clip2_euler')\" mask=\"url('#intersection_mask_euler')\" x=\"-100\" y=\"-100\" width=\"200\" height=\"200\"/>\n\n<text x=\"0\" y=\"-70\">&#xe904;</text>\n<text x=\"66.57\" y=\"-21.6311\">&#xe903;</text>\n<text x=\"41.1449\" y=\"56.6311\">&#xe902;</text>\n<text x=\"-41.1449\" y=\"56.6311\">&#xe901;</text>\n<text x=\"-66.57\" y=\"-21.6311\">&#xe900;</text>\n</svg>";

pub const EULER_SVG_SETMINUS: &'static str = "<svg version=\"1.1\" viewBox=\"-100 -100 200 200\" xmlns=\"http://www.w3.org/2000/svg\" class=\"eulersvg\">\n<path class=\"cd1 bgclll1\" d=\"M -66.57395614066075 -39.131189606246295 A 17.5 17.5 0 0 0 -76.86019805577904 -7.473392204684714 L 30.858725745354857, 70.78898700780789 A 17.5 17.5 0 0 0 57.78845669563833 62.03898700780788 L 83.21744517582593, -16.223392204684764 A 17.5 17.5 0 0 0 66.57395614066074 -39.13118960624634 L -66.57395614066075, -39.131189606246295\"></path>\n<path class=\"cd3 bgclll3\" d=\"M -49.961746444860204 44.49593469062212 A 15 15 0 0 0 -32.328188876086 68.76644452187054 L 75.39073492504784, -9.495934690622128 A 15 15 0 0 0 57.757177356273644 -33.76644452187055 L -49.961746444860204, 44.49593469062212\"></path>\n\n<clipPath id=\"setminus_clip1_euler\">\n<path id=\"setminus_clip1_euler_path\" class=\"euler clip\" d=\"M -66.57395614066075 -39.131189606246295 A 17.5 17.5 0 0 0 -76.86019805577904 -7.473392204684714 L 30.858725745354857, 70.78898700780789 A 17.5 17.5 0 0 0 57.78845669563833 62.03898700780788 L 83.21744517582593, -16.223392204684764 A 17.5 17.5 0 0 0 66.57395614066074 -39.13118960624634 L -66.57395614066075, -39.131189606246295\"></path>\n</clipPath>\n<mask id=\"setminus_mask_euler\">\n<rect fill=\"white\" x=\"-100\" y=\"-100\" width=\"200\" height=\"200\"/>\n<path id=\"setminus_mask1_euler_path\" class=\"euler mask\" d=\"M -66.57395614066075 -39.131189606246295 A 17.5 17.5 0 0 0 -76.86019805577904 -7.473392204684714 L 30.858725745354857, 70.78898700780789 A 17.5 17.5 0 0 0 57.78845669563833 62.03898700780788 L 83.21744517582593, -16.223392204684764 A 17.5 17.5 0 0 0 66.57395614066074 -39.13118960624634 L -66.57395614066075, -39.131189606246295\"></path>\n<path id=\"setminus_mask2_euler_path\" class=\"euler mask\" d=\"M -49.961746444860204 44.49593469062212 A 15 15 0 0 0 -32.328188876086 68.76644452187054 L 75.39073492504784, -9.495934690622128 A 15 15 0 0 0 57.757177356273644 -33.76644452187055 L -49.961746444860204, 44.49593469062212\"></path>\n<path id=\"setminus_clip2_euler_path\" style=\"fill: black; stroke: black\" class=\"euler clip\" d=\"M -49.961746444860204 44.49593469062212 A 15 15 0 0 0 -32.328188876086 68.76644452187054 L 75.39073492504784, -9.495934690622128 A 15 15 0 0 0 57.757177356273644 -33.76644452187055 L -49.961746444860204, 44.49593469062212\"></path>\n</mask>\n\n<rect class=\"euler_yay\" clip-path=\"url('#setminus_clip1_euler')\" mask=\"url('#setminus_mask_euler')\" x=\"-100\" y=\"-100\" width=\"200\" height=\"200\"/>\n\n<text x=\"0\" y=\"-70\">&#xe904;</text>\n<text x=\"66.57\" y=\"-21.6311\">&#xe903;</text>\n<text x=\"41.1449\" y=\"56.6311\">&#xe902;</text>\n<text x=\"-41.1449\" y=\"56.6311\">&#xe901;</text>\n<text x=\"-66.57\" y=\"-21.6311\">&#xe900;</text>\n</svg>";

pub const EULER_SVG_UNION: &'static str = "<svg version=\"1.1\" viewBox=\"-100 -100 200 200\" xmlns=\"http://www.w3.org/2000/svg\" class=\"eulersvg\">\n<path class=\"cd1 bgclll1\" d=\"M -66.57395614066075 -39.131189606246295 A 17.5 17.5 0 0 0 -76.86019805577904 -7.473392204684714 L 30.858725745354857, 70.78898700780789 A 17.5 17.5 0 0 0 57.78845669563833 62.03898700780788 L 83.21744517582593, -16.223392204684764 A 17.5 17.5 0 0 0 66.57395614066074 -39.13118960624634 L -66.57395614066075, -39.131189606246295\"></path>\n<path class=\"cd3 bgclll3\" d=\"M -49.961746444860204 44.49593469062212 A 15 15 0 0 0 -32.328188876086 68.76644452187054 L 75.39073492504784, -9.495934690622128 A 15 15 0 0 0 57.757177356273644 -33.76644452187055 L -49.961746444860204, 44.49593469062212\"></path>\n<clipPath id=\"union_clip1_euler\">\n<path id=\"union_clip1_euler_path\" class=\"euler clip\" d=\"M -66.57395614066075 -39.131189606246295 A 17.5 17.5 0 0 0 -76.86019805577904 -7.473392204684714 L 30.858725745354857, 70.78898700780789 A 17.5 17.5 0 0 0 57.78845669563833 62.03898700780788 L 83.21744517582593, -16.223392204684764 A 17.5 17.5 0 0 0 66.57395614066074 -39.13118960624634 L -66.57395614066075, -39.131189606246295\"></path>\n<path id=\"union_clip2_euler_path\" class=\"euler clip\" d=\"M -49.961746444860204 44.49593469062212 A 15 15 0 0 0 -32.328188876086 68.76644452187054 L 75.39073492504784, -9.495934690622128 A 15 15 0 0 0 57.757177356273644 -33.76644452187055 L -49.961746444860204, 44.49593469062212\"></path>\n</clipPath>\n<mask id=\"union_mask_euler\">\n<rect fill=\"white\" x=\"-100\" y=\"-100\" width=\"200\" height=\"200\"/>\n<path id=\"union_mask1_euler_path\" class=\"euler mask\" d=\"M -66.57395614066075 -39.131189606246295 A 17.5 17.5 0 0 0 -76.86019805577904 -7.473392204684714 L 30.858725745354857, 70.78898700780789 A 17.5 17.5 0 0 0 57.78845669563833 62.03898700780788 L 83.21744517582593, -16.223392204684764 A 17.5 17.5 0 0 0 66.57395614066074 -39.13118960624634 L -66.57395614066075, -39.131189606246295\"></path>\n<path id=\"union_mask2_euler_path\" class=\"euler mask\" d=\"M -49.961746444860204 44.49593469062212 A 15 15 0 0 0 -32.328188876086 68.76644452187054 L 75.39073492504784, -9.495934690622128 A 15 15 0 0 0 57.757177356273644 -33.76644452187055 L -49.961746444860204, 44.49593469062212\"></path>\n</mask>\n\n<rect class=\"euler_yay\" clip-path=\"url('#union_clip1_euler')\" mask=\"url('#union_mask_euler')\" x=\"-100\" y=\"-100\" width=\"200\" height=\"200\"/>\n\n<text x=\"0\" y=\"-70\">&#xe904;</text>\n<text x=\"66.57\" y=\"-21.6311\">&#xe903;</text>\n<text x=\"41.1449\" y=\"56.6311\">&#xe902;</text>\n<text x=\"-41.1449\" y=\"56.6311\">&#xe901;</text>\n<text x=\"-66.57\" y=\"-21.6311\">&#xe900;</text>\n</svg>";


/// The view of a table entry: the same constructor with its constant text
/// as character sequences.
pub enum CtorView {
    EmptyMacro,
    HtmlTag(Seq<char>),
    P,
    Input,
    Output(bool),
    CopyAll,
    Template,
    HSection(bool),
    DropContent,
    Const(Seq<char>),
    Cref,
    Cases,
    CaseOf,
    ChapterNav,
    TeX(bool),
    Fleqn,
    Cwd,
    SetDomain,
    BoxOf(BoxKind, Seq<char>),
    Fact(Seq<char>, bool),
    ProofBox,
    Define(bool),
    ProofPart,
    ReferenceDefined(bool, bool, bool),
    Enclose(Seq<char>, Seq<char>),
    Enclose2(Seq<char>, Seq<char>, Seq<char>),
    Toggled(Seq<char>, Seq<char>),
    Link,
    Captioned,
    SetMathId,
    MathSet,
    MathSetBuilder,
    MathEnv(Seq<char>),
    MathMacro(Seq<char>, Seq<char>),
    EncloseFunctionApplication(Seq<char>, Seq<char>),
    MathGroupingParens,
}

/// The view of a constructed table entry.
pub open spec fn ctor_view(c: Ctor) -> CtorView {
    match c {
        Ctor::EmptyMacro => CtorView::EmptyMacro,
        Ctor::HtmlTag(t) => CtorView::HtmlTag(t@),
        Ctor::P => CtorView::P,
        Ctor::Input => CtorView::Input,
        Ctor::Output(b) => CtorView::Output(b),
        Ctor::CopyAll => CtorView::CopyAll,
        Ctor::Template => CtorView::Template,
        Ctor::HSection(b) => CtorView::HSection(b),
        Ctor::DropContent => CtorView::DropContent,
        Ctor::Const(t) => CtorView::Const(t@),
        Ctor::Cref => CtorView::Cref,
        Ctor::Cases => CtorView::Cases,
        Ctor::CaseOf => CtorView::CaseOf,
        Ctor::ChapterNav => CtorView::ChapterNav,
        Ctor::TeX(b) => CtorView::TeX(b),
        Ctor::Fleqn => CtorView::Fleqn,
        Ctor::Cwd => CtorView::Cwd,
        Ctor::SetDomain => CtorView::SetDomain,
        Ctor::BoxOf(k, n) => CtorView::BoxOf(k, n@),
        Ctor::Fact(n, b) => CtorView::Fact(n@, b),
        Ctor::ProofBox => CtorView::ProofBox,
        Ctor::Define(b) => CtorView::Define(b),
        Ctor::ProofPart => CtorView::ProofPart,
        Ctor::ReferenceDefined(a, b, c) => CtorView::ReferenceDefined(a, b, c),
        Ctor::Enclose(a, b) => CtorView::Enclose(a@, b@),
        Ctor::Enclose2(a, b, c) => CtorView::Enclose2(a@, b@, c@),
        Ctor::Toggled(a, b) => CtorView::Toggled(a@, b@),
        Ctor::Link => CtorView::Link,
        Ctor::Captioned => CtorView::Captioned,
        Ctor::SetMathId => CtorView::SetMathId,
        Ctor::MathSet => CtorView::MathSet,
        Ctor::MathSetBuilder => CtorView::MathSetBuilder,
        Ctor::MathEnv(e) => CtorView::MathEnv(e@),
        Ctor::MathMacro(a, b) => CtorView::MathMacro(a@, b@),
        Ctor::EncloseFunctionApplication(a, b) => CtorView::EncloseFunctionApplication(a@, b@),
        Ctor::MathGroupingParens => CtorView::MathGroupingParens,
    }
}

/// The compiled-in dispatch table, as a total map from barewords to entry
/// views: `None` exactly off the table.
pub open spec fn spec_dispatch(name: Seq<char>) -> Option<CtorView> {
    if name == ""@ {
        Some(CtorView::EmptyMacro)
    } else if name == "hsection"@ {
        Some(CtorView::HSection(false))
    } else if name == "hsection*"@ {
        Some(CtorView::HSection(true))
    } else if name == "output"@ {
        Some(CtorView::Output(false))
    } else if name == "output_tee"@ {
        Some(CtorView::Output(true))
    } else if name == "input"@ {
        Some(CtorView::Input)
    } else if name == "cref"@ {
        Some(CtorView::Cref)
    } else if name == "template"@ {
        Some(CtorView::Template)
    } else if name == "define"@ {
        Some(CtorView::Define(false))
    } else if name == "$"@ {
        Some(CtorView::TeX(false))
    } else if name == "$$"@ {
        Some(CtorView::TeX(true))
    } else if name == "html"@ {
        Some(CtorView::HtmlTag("html"@))
    } else if name == "style"@ {
        Some(CtorView::HtmlTag("style"@))
    } else if name == "title"@ {
        Some(CtorView::HtmlTag("title"@))
    } else if name == "body"@ {
        Some(CtorView::HtmlTag("body"@))
    } else if name == "head"@ {
        Some(CtorView::HtmlTag("head"@))
    } else if name == "aside"@ {
        Some(CtorView::HtmlTag("aside"@))
    } else if name == "footer"@ {
        Some(CtorView::HtmlTag("footer"@))
    } else if name == "header"@ {
        Some(CtorView::HtmlTag("header"@))
    } else if name == "h1"@ {
        Some(CtorView::HtmlTag("h1"@))
    } else if name == "h2"@ {
        Some(CtorView::HtmlTag("h2"@))
    } else if name == "h3"@ {
        Some(CtorView::HtmlTag("h3"@))
    } else if name == "h4"@ {
        Some(CtorView::HtmlTag("h4"@))
    } else if name == "h5"@ {
        Some(CtorView::HtmlTag("h5"@))
    } else if name == "h6"@ {
        Some(CtorView::HtmlTag("h6"@))
    } else if name == "main"@ {
        Some(CtorView::HtmlTag("main"@))
    } else if name == "nav"@ {
        Some(CtorView::HtmlTag("nav"@))
    } else if name == "section"@ {
        Some(CtorView::HtmlTag("section"@))
    } else if name == "blockquote"@ {
        Some(CtorView::HtmlTag("blockquote"@))
    } else if name == "figcaption"@ {
        Some(CtorView::HtmlTag("figcaption"@))
    } else if name == "pre"@ {
        Some(CtorView::HtmlTag("pre"@))
    } else if name == "div"@ {
        Some(CtorView::HtmlTag("div"@))
    } else if name == "li"@ {
        Some(CtorView::HtmlTag("li"@))
    } else if name == "ul"@ {
        Some(CtorView::HtmlTag("ul"@))
    } else if name == "ol"@ {
        Some(CtorView::HtmlTag("ol"@))
    } else if name == "button"@ {
        Some(CtorView::HtmlTag("button"@))
    } else if name == "a"@ {
        Some(CtorView::HtmlTag("a"@))
    } else if name == "abbr"@ {
        Some(CtorView::HtmlTag("abbr"@))
    } else if name == "code"@ {
        Some(CtorView::HtmlTag("code"@))
    } else if name == "dfn"@ {
        Some(CtorView::HtmlTag("dfn"@))
    } else if name == "html_cite"@ {
        Some(CtorView::HtmlTag("cite"@))
    } else if name == "em"@ {
        Some(CtorView::HtmlTag("em"@))
    } else if name == "i"@ {
        Some(CtorView::HtmlTag("i"@))
    } else if name == "b"@ {
        Some(CtorView::HtmlTag("b"@))
    } else if name == "q"@ {
        Some(CtorView::HtmlTag("q"@))
    } else if name == "s"@ {
        Some(CtorView::HtmlTag("s"@))
    } else if name == "span"@ {
        Some(CtorView::HtmlTag("span"@))
    } else if name == "strong"@ {
        Some(CtorView::HtmlTag("strong"@))
    } else if name == "script"@ {
        Some(CtorView::HtmlTag("script"@))
    } else if name == "table"@ {
        Some(CtorView::HtmlTag("table"@))
    } else if name == "thead"@ {
        Some(CtorView::HtmlTag("thead"@))
    } else if name == "tbody"@ {
        Some(CtorView::HtmlTag("tbody"@))
    } else if name == "tr"@ {
        Some(CtorView::HtmlTag("tr"@))
    } else if name == "th"@ {
        Some(CtorView::HtmlTag("th"@))
    } else if name == "td"@ {
        Some(CtorView::HtmlTag("td"@))
    } else if name == "p"@ {
        Some(CtorView::P)
    } else if name == "copy"@ {
        Some(CtorView::CopyAll)
    } else if name == "drop"@ {
        Some(CtorView::DropContent)
    } else if name == "cases"@ {
        Some(CtorView::Cases)
    } else if name == "case"@ {
        Some(CtorView::CaseOf)
    } else if name == "chapternav"@ {
        Some(CtorView::ChapterNav)
    } else if name == "fleqn"@ {
        Some(CtorView::Fleqn)
    } else if name == "cwd"@ {
        Some(CtorView::Cwd)
    } else if name == "set_domain"@ {
        Some(CtorView::SetDomain)
    } else if name == "definition"@ {
        Some(CtorView::BoxOf(BoxKind::Other(OtherBoxKind::Definition), "Definition"@))
    } else if name == "example"@ {
        Some(CtorView::BoxOf(BoxKind::Other(OtherBoxKind::Example), "Example"@))
    } else if name == "figure"@ {
        Some(CtorView::BoxOf(BoxKind::Other(OtherBoxKind::Example), "Figure"@))
    } else if name == "exercise"@ {
        Some(CtorView::BoxOf(BoxKind::Exercise, "Exercise"@))
    } else if name == "proof"@ {
        Some(CtorView::ProofBox)
    } else if name == "definex"@ {
        Some(CtorView::Define(true))
    } else if name == "proof_part"@ {
        Some(CtorView::ProofPart)
    } else if name == "link"@ {
        Some(CtorView::Link)
    } else if name == "captioned"@ {
        Some(CtorView::Captioned)
    } else if name == "set_math_id"@ {
        Some(CtorView::SetMathId)
    } else if name == "$set"@ {
        Some(CtorView::MathSet)
    } else if name == "$set_builder"@ {
        Some(CtorView::MathSetBuilder)
    } else if name == "$$align*"@ {
        Some(CtorView::MathEnv("align*"@))
    } else if name == "$p"@ {
        Some(CtorView::MathGroupingParens)
    } else if name == "solution"@ {
        Some(CtorView::Toggled("Show Solution"@, "Hide Solution"@))
    } else if name == "proof_as_exercise"@ {
        Some(CtorView::Toggled("Show Proof"@, "Hide Proof"@))
    } else if name == "pretty_venn_duration"@ {
        Some(CtorView::Const("60s"@))
    } else if name == "meta1"@ {
        Some(CtorView::Const("<i class=\"bgclll1 highlight low\">bla</i>"@))
    } else if name == "meta2"@ {
        Some(CtorView::Const("<i class=\"bgclll3 highlight low\">blubb</i>"@))
    } else if name == "meta3"@ {
        Some(CtorView::Const("<i class=\"bgclll5 highlight low\">blip</i>"@))
    } else if name == "$mid"@ {
        Some(CtorView::Const("\\mid"@))
    } else if name == "symbol0"@ {
        Some(CtorView::Const("<span class=\"symbol_container\">\u{e904}/span>"@))
    } else if name == "$symbol0"@ {
        Some(CtorView::Const("\\htmlClass{symbol_container}{\\char\"e904}"@))
    } else if name == "symbol1"@ {
        Some(CtorView::Const("<span class=\"symbol_container\">\u{e903}</span>"@))
    } else if name == "$symbol1"@ {
        Some(CtorView::Const("\\htmlClass{symbol_container}{\\char\"e903}"@))
    } else if name == "symbol2"@ {
        Some(CtorView::Const("<span class=\"symbol_container\">\u{e902}</span>"@))
    } else if name == "$symbol2"@ {
        Some(CtorView::Const("\\htmlClass{symbol_container}{\\char\"e902}"@))
    } else if name == "symbol3"@ {
        Some(CtorView::Const("<span class=\"symbol_container\">\u{e901}</span>"@))
    } else if name == "$symbol3"@ {
        Some(CtorView::Const("\\htmlClass{symbol_container}{\\char\"e901}"@))
    } else if name == "symbol4"@ {
        Some(CtorView::Const("<span class=\"symbol_container\">\u{e900}</span>"@))
    } else if name == "$symbol4"@ {
        Some(CtorView::Const("\\htmlClass{symbol_container}{\\char\"e900}"@))
    } else if name == "hr"@ {
        Some(CtorView::Const("<hr>"@))
    } else if name == "br"@ {
        Some(CtorView::Const("<br>"@))
    } else if name == "$ldots"@ {
        Some(CtorView::Const("\\ldots"@))
    } else if name == "lorem"@ {
        Some(CtorView::Const(LOREM@))
    } else if name == "euler_svg"@ {
        Some(CtorView::Const(EULER_SVG@))
    } else if name == "euler_svg_union"@ {
        Some(CtorView::Const(EULER_SVG_UNION@))
    } else if name == "euler_svg_setminus"@ {
        Some(CtorView::Const(EULER_SVG_SETMINUS@))
    } else if name == "euler_svg_equality"@ {
        Some(CtorView::Const(EULER_SVG_EQUALITY@))
    } else if name == "euler_svg_intersection"@ {
        Some(CtorView::Const(EULER_SVG_INTERSECTION@))
    } else if name == "statement"@ {
        Some(CtorView::Fact("Statement"@, false))
    } else if name == "statement*"@ {
        Some(CtorView::Fact("Statement"@, true))
    } else if name == "observation"@ {
        Some(CtorView::Fact("Observation"@, false))
    } else if name == "observation*"@ {
        Some(CtorView::Fact("Observation"@, true))
    } else if name == "theorem"@ {
        Some(CtorView::Fact("Theorem"@, false))
    } else if name == "theorem*"@ {
        Some(CtorView::Fact("Theorem"@, true))
    } else if name == "lemma"@ {
        Some(CtorView::Fact("Lemma"@, false))
    } else if name == "lemma*"@ {
        Some(CtorView::Fact("Lemma"@, true))
    } else if name == "corollary"@ {
        Some(CtorView::Fact("Corollary"@, false))
    } else if name == "corollary*"@ {
        Some(CtorView::Fact("Corollary"@, true))
    } else if name == "conjecture"@ {
        Some(CtorView::Fact("Conjecture"@, false))
    } else if name == "conjecture*"@ {
        Some(CtorView::Fact("Conjecture"@, true))
    } else if name == "falsehood"@ {
        Some(CtorView::Fact("Falsehood"@, false))
    } else if name == "falsehood*"@ {
        Some(CtorView::Fact("Falsehood"@, true))
    } else if name == "r"@ {
        Some(CtorView::ReferenceDefined(false, false, false))
    } else if name == "R"@ {
        Some(CtorView::ReferenceDefined(true, false, false))
    } else if name == "rs"@ {
        Some(CtorView::ReferenceDefined(false, true, false))
    } else if name == "Rs"@ {
        Some(CtorView::ReferenceDefined(true, true, false))
    } else if name == "rdef"@ {
        Some(CtorView::ReferenceDefined(false, false, true))
    } else if name == "Rdef"@ {
        Some(CtorView::ReferenceDefined(true, false, true))
    } else if name == "rsdef"@ {
        Some(CtorView::ReferenceDefined(false, true, true))
    } else if name == "Rsdef"@ {
        Some(CtorView::ReferenceDefined(true, true, true))
    } else if name == "proven_fact"@ {
        Some(CtorView::Enclose("<div class=\"proven_fact\">"@, "</div>"@))
    } else if name == "clfx"@ {
        Some(CtorView::Enclose("<div class=\"clfx\">"@, "</div>"@))
    } else if name == "$value"@ {
        Some(CtorView::Enclose("\\mathrm{"@, "}"@))
    } else if name == "$cancel"@ {
        Some(CtorView::Enclose("\\cancel{"@, "}"@))
    } else if name == "$bcancel"@ {
        Some(CtorView::Enclose("\\bcancel{"@, "}"@))
    } else if name == "$xcancel"@ {
        Some(CtorView::Enclose("\\xcancel{"@, "}"@))
    } else if name == "$sout"@ {
        Some(CtorView::Enclose("\\sout{"@, "}"@))
    } else if name == "$cancel_symbol"@ {
        Some(CtorView::Enclose("\\htmlClass{cancel_symbol}{"@, "}"@))
    } else if name == "$define_notation"@ {
        Some(CtorView::Enclose("\\htmlClass{define_notation}{"@, "}"@))
    } else if name == "$text_color"@ {
        Some(CtorView::Enclose("\\htmlClass{text_color}{"@, "}"@))
    } else if name == "nowrap"@ {
        Some(CtorView::Enclose("<span class=\"nowrap\">"@, "</span>"@))
    } else if name == "video_container"@ {
        Some(CtorView::Enclose("<div class=\"video_container\">"@, "</div>"@))
    } else if name == "nobr"@ {
        Some(CtorView::Enclose("<span class=\"nobr\">"@, "</span>"@))
    } else if name == "$tag"@ {
        Some(CtorView::Enclose("\\tag{"@, "}"@))
    } else if name == "$text"@ {
        Some(CtorView::Enclose("\\text{"@, "}"@))
    } else if name == "highlightlow1"@ {
        Some(CtorView::Enclose("<span class=\"bgclll1 highlight low\">"@, "</span>"@))
    } else if name == "$highlightlow1"@ {
        Some(CtorView::Enclose("\\htmlClass{bgclll1 highlight low}{"@, "}"@))
    } else if name == "$highlighttop1"@ {
        Some(CtorView::Enclose("\\htmlClass{bgclll1 highlight top}{"@, "}"@))
    } else if name == "$highlightlowr1"@ {
        Some(CtorView::Enclose("\\htmlClass{bgclll1 highlight rightspace low}{"@, "}"@))
    } else if name == "$highlighttopr1"@ {
        Some(CtorView::Enclose("\\htmlClass{bgclll1 highlight rightspace top}{"@, "}"@))
    } else if name == "$highlight1"@ {
        Some(CtorView::Enclose("\\htmlClass{bgmclll1}{"@, "}"@))
    } else if name == "$highlight1_direct"@ {
        Some(CtorView::Enclose("\\htmlClass{bgmcllldirect1}{"@, "}"@))
    } else if name == "highlightlow2"@ {
        Some(CtorView::Enclose("<span class=\"bgclll2 highlight low\">"@, "</span>"@))
    } else if name == "$highlightlow2"@ {
        Some(CtorView::Enclose("\\htmlClass{bgclll2 highlight low}{"@, "}"@))
    } else if name == "$highlighttop2"@ {
        Some(CtorView::Enclose("\\htmlClass{bgclll2 highlight top}{"@, "}"@))
    } else if name == "$highlightlowr2"@ {
        Some(CtorView::Enclose("\\htmlClass{bgclll2 highlight rightspace low}{"@, "}"@))
    } else if name == "$highlighttopr2"@ {
        Some(CtorView::Enclose("\\htmlClass{bgclll2 highlight rightspace top}{"@, "}"@))
    } else if name == "$highlight2"@ {
        Some(CtorView::Enclose("\\htmlClass{bgmclll2}{"@, "}"@))
    } else if name == "$highlight2_direct"@ {
        Some(CtorView::Enclose("\\htmlClass{bgmcllldirect2}{"@, "}"@))
    } else if name == "highlightlow3"@ {
        Some(CtorView::Enclose("<span class=\"bgclll3 highlight low\">"@, "</span>"@))
    } else if name == "$highlightlow3"@ {
        Some(CtorView::Enclose("\\htmlClass{bgclll3 highlight low}{"@, "}"@))
    } else if name == "$highlighttop3"@ {
        Some(CtorView::Enclose("\\htmlClass{bgclll3 highlight top}{"@, "}"@))
    } else if name == "$highlightlowr3"@ {
        Some(CtorView::Enclose("\\htmlClass{bgclll3 highlight rightspace low}{"@, "}"@))
    } else if name == "$highlighttopr3"@ {
        Some(CtorView::Enclose("\\htmlClass{bgclll3 highlight rightspace top}{"@, "}"@))
    } else if name == "$highlight3"@ {
        Some(CtorView::Enclose("\\htmlClass{bgmclll3}{"@, "}"@))
    } else if name == "$highlight3_direct"@ {
        Some(CtorView::Enclose("\\htmlClass{bgmcllldirect3}{"@, "}"@))
    } else if name == "highlightlow4"@ {
        Some(CtorView::Enclose("<span class=\"bgclll4 highlight low\">"@, "</span>"@))
    } else if name == "$highlightlow4"@ {
        Some(CtorView::Enclose("\\htmlClass{bgclll4 highlight low}{"@, "}"@))
    } else if name == "$highlighttop4"@ {
        Some(CtorView::Enclose("\\htmlClass{bgclll4 highlight top}{"@, "}"@))
    } else if name == "$highlightlowr4"@ {
        Some(CtorView::Enclose("\\htmlClass{bgclll4 highlight rightspace low}{"@, "}"@))
    } else if name == "$highlighttopr4"@ {
        Some(CtorView::Enclose("\\htmlClass{bgclll4 highlight rightspace top}{"@, "}"@))
    } else if name == "$highlight4"@ {
        Some(CtorView::Enclose("\\htmlClass{bgmclll4}{"@, "}"@))
    } else if name == "$highlight4_direct"@ {
        Some(CtorView::Enclose("\\htmlClass{bgmcllldirect4}{"@, "}"@))
    } else if name == "highlightlow5"@ {
        Some(CtorView::Enclose("<span class=\"bgclll5 highlight low\">"@, "</span>"@))
    } else if name == "$highlightlow5"@ {
        Some(CtorView::Enclose("\\htmlClass{bgclll5 highlight low}{"@, "}"@))
    } else if name == "$highlighttop5"@ {
        Some(CtorView::Enclose("\\htmlClass{bgclll5 highlight top}{"@, "}"@))
    } else if name == "$highlightlowr5"@ {
        Some(CtorView::Enclose("\\htmlClass{bgclll5 highlight rightspace low}{"@, "}"@))
    } else if name == "$highlighttopr5"@ {
        Some(CtorView::Enclose("\\htmlClass{bgclll5 highlight rightspace top}{"@, "}"@))
    } else if name == "$highlight5"@ {
        Some(CtorView::Enclose("\\htmlClass{bgmclll5}{"@, "}"@))
    } else if name == "$highlight5_direct"@ {
        Some(CtorView::Enclose("\\htmlClass{bgmcllldirect5}{"@, "}"@))
    } else if name == "highlightlow6"@ {
        Some(CtorView::Enclose("<span class=\"bgclll6 highlight low\">"@, "</span>"@))
    } else if name == "$highlightlow6"@ {
        Some(CtorView::Enclose("\\htmlClass{bgclll6 highlight low}{"@, "}"@))
    } else if name == "$highlighttop6"@ {
        Some(CtorView::Enclose("\\htmlClass{bgclll6 highlight top}{"@, "}"@))
    } else if name == "$highlightlowr6"@ {
        Some(CtorView::Enclose("\\htmlClass{bgclll6 highlight rightspace low}{"@, "}"@))
    } else if name == "$highlighttopr6"@ {
        Some(CtorView::Enclose("\\htmlClass{bgclll6 highlight rightspace top}{"@, "}"@))
    } else if name == "$highlight6"@ {
        Some(CtorView::Enclose("\\htmlClass{bgmclll6}{"@, "}"@))
    } else if name == "$highlight6_direct"@ {
        Some(CtorView::Enclose("\\htmlClass{bgmcllldirect6}{"@, "}"@))
    } else if name == "$class"@ {
        Some(CtorView::Enclose2("\\htmlClass{"@, "}{"@, "}"@))
    } else if name == "fact_marginalia"@ {
        Some(CtorView::Enclose2("<div class=\"box_marginalia fact clfx slightlywide\"><span class=\"aside\">"@, "</span>"@, "</div>"@))
    } else if name == "exercise_marginalia"@ {
        Some(CtorView::Enclose2("<div class=\"box_marginalia exercise clfx slightlywide\"><span class=\"aside\">"@, "</span>"@, "</div>"@))
    } else if name == "definition_marginalia"@ {
        Some(CtorView::Enclose2("<div class=\"box_marginalia definition clfx slightlywide\"><span class=\"aside\">"@, "</span>"@, "</div>"@))
    } else if name == "$eq"@ {
        Some(CtorView::MathMacro("eq"@, "="@))
    } else if name == "$neq"@ {
        Some(CtorView::MathMacro("neq"@, "\\neq"@))
    } else if name == "$leq"@ {
        Some(CtorView::MathMacro("leq"@, "\\leq"@))
    } else if name == "$implies"@ {
        Some(CtorView::MathMacro("implies"@, "\\implies"@))
    } else if name == "$impliedby"@ {
        Some(CtorView::MathMacro("impliedby"@, "\\impliedby"@))
    } else if name == "$iff"@ {
        Some(CtorView::MathMacro("iff"@, "\\iff"@))
    } else if name == "$in"@ {
        Some(CtorView::MathMacro("in"@, "\\in"@))
    } else if name == "$notin"@ {
        Some(CtorView::MathMacro("notin"@, "\\notin"@))
    } else if name == "$seq"@ {
        Some(CtorView::MathMacro("seq"@, "="@))
    } else if name == "$sneq"@ {
        Some(CtorView::MathMacro("sneq"@, "\\neq"@))
    } else if name == "$defeq"@ {
        Some(CtorView::MathMacro("defeq"@, "\\coloneqq"@))
    } else if name == "$eqdef"@ {
        Some(CtorView::MathMacro("eqdef"@, "\\eqqcolon"@))
    } else if name == "$subseteq"@ {
        Some(CtorView::MathMacro("subseteq"@, "\\subseteq"@))
    } else if name == "$subset"@ {
        Some(CtorView::MathMacro("subset"@, "\\subset"@))
    } else if name == "$supseteq"@ {
        Some(CtorView::MathMacro("supseteq"@, "\\supseteq"@))
    } else if name == "$supset"@ {
        Some(CtorView::MathMacro("supset"@, "\\supset"@))
    } else if name == "$nsubseteq"@ {
        Some(CtorView::MathMacro("nsubseteq"@, "\\nsubseteq"@))
    } else if name == "$nsupseteq"@ {
        Some(CtorView::MathMacro("nsupseteq"@, "\\nsupseteq"@))
    } else if name == "$nsubset"@ {
        Some(CtorView::MathMacro("nsubset"@, "\\not\\subset"@))
    } else if name == "$nsupset"@ {
        Some(CtorView::MathMacro("nsupset"@, "\\not\\supset"@))
    } else if name == "$intersection"@ {
        Some(CtorView::MathMacro("intersection"@, "\\cap"@))
    } else if name == "$union"@ {
        Some(CtorView::MathMacro("union"@, "\\cup"@))
    } else if name == "$setminus"@ {
        Some(CtorView::MathMacro("setminus"@, "\\setminus"@))
    } else if name == "$symdif"@ {
        Some(CtorView::MathMacro("symdif"@, "\\operatorname{\\triangle}"@))
    } else if name == "$twice"@ {
        Some(CtorView::EncloseFunctionApplication("twice"@, "\\operatorname{twice}"@))
    } else if name == "$powerset"@ {
        Some(CtorView::EncloseFunctionApplication("powerset"@, "\\operatorname{\\mathcal{P}}"@))
    } else {
        None
    }
}

/// The compiled-in dispatch table: which node a bareword constructs,
/// together with the constant text the macro contributes. A name not in the
/// table names no macro; the table is the executable mirror of
/// `spec_dispatch`.
#[verifier::rlimit(100)]
pub fn dispatch(name: &str) -> (r: Option<Ctor>)
    ensures
        (r matches Some(c) ==> spec_dispatch(name@) == Some(ctor_view(c))),
        (r is None ==> spec_dispatch(name@) is None),
{
    if str_eq(name, "") {
        Some(Ctor::EmptyMacro)
    } else if str_eq(name, "hsection") {
        Some(Ctor::HSection(false))
    } else if str_eq(name, "hsection*") {
        Some(Ctor::HSection(true))
    } else if str_eq(name, "output") {
        Some(Ctor::Output(false))
    } else if str_eq(name, "output_tee") {
        Some(Ctor::Output(true))
    } else if str_eq(name, "input") {
        Some(Ctor::Input)
    } else if str_eq(name, "cref") {
        Some(Ctor::Cref)
    } else if str_eq(name, "template") {
        Some(Ctor::Template)
    } else if str_eq(name, "define") {
        Some(Ctor::Define(false))
    } else if str_eq(name, "$") {
        Some(Ctor::TeX(false))
    } else if str_eq(name, "$$") {
        Some(Ctor::TeX(true))
    } else if str_eq(name, "html") {
        Some(Ctor::HtmlTag("html".to_owned()))
    } else if str_eq(name, "style") {
        Some(Ctor::HtmlTag("style".to_owned()))
    } else if str_eq(name, "title") {
        Some(Ctor::HtmlTag("title".to_owned()))
    } else if str_eq(name, "body") {
        Some(Ctor::HtmlTag("body".to_owned()))
    } else if str_eq(name, "head") {
        Some(Ctor::HtmlTag("head".to_owned()))
    } else if str_eq(name, "aside") {
        Some(Ctor::HtmlTag("aside".to_owned()))
    } else if str_eq(name, "footer") {
        Some(Ctor::HtmlTag("footer".to_owned()))
    } else if str_eq(name, "header") {
        Some(Ctor::HtmlTag("header".to_owned()))
    } else if str_eq(name, "h1") {
        Some(Ctor::HtmlTag("h1".to_owned()))
    } else if str_eq(name, "h2") {
        Some(Ctor::HtmlTag("h2".to_owned()))
    } else if str_eq(name, "h3") {
        Some(Ctor::HtmlTag("h3".to_owned()))
    } else if str_eq(name, "h4") {
        Some(Ctor::HtmlTag("h4".to_owned()))
    } else if str_eq(name, "h5") {
        Some(Ctor::HtmlTag("h5".to_owned()))
    } else if str_eq(name, "h6") {
        Some(Ctor::HtmlTag("h6".to_owned()))
    } else if str_eq(name, "main") {
        Some(Ctor::HtmlTag("main".to_owned()))
    } else if str_eq(name, "nav") {
        Some(Ctor::HtmlTag("nav".to_owned()))
    } else if str_eq(name, "section") {
        Some(Ctor::HtmlTag("section".to_owned()))
    } else if str_eq(name, "blockquote") {
        Some(Ctor::HtmlTag("blockquote".to_owned()))
    } else if str_eq(name, "figcaption") {
        Some(Ctor::HtmlTag("figcaption".to_owned()))
    } else if str_eq(name, "pre") {
        Some(Ctor::HtmlTag("pre".to_owned()))
    } else if str_eq(name, "div") {
        Some(Ctor::HtmlTag("div".to_owned()))
    } else if str_eq(name, "li") {
        Some(Ctor::HtmlTag("li".to_owned()))
    } else if str_eq(name, "ul") {
        Some(Ctor::HtmlTag("ul".to_owned()))
    } else if str_eq(name, "ol") {
        Some(Ctor::HtmlTag("ol".to_owned()))
    } else if str_eq(name, "button") {
        Some(Ctor::HtmlTag("button".to_owned()))
    } else if str_eq(name, "a") {
        Some(Ctor::HtmlTag("a".to_owned()))
    } else if str_eq(name, "abbr") {
        Some(Ctor::HtmlTag("abbr".to_owned()))
    } else if str_eq(name, "code") {
        Some(Ctor::HtmlTag("code".to_owned()))
    } else if str_eq(name, "dfn") {
        Some(Ctor::HtmlTag("dfn".to_owned()))
    } else if str_eq(name, "html_cite") {
        Some(Ctor::HtmlTag("cite".to_owned()))
    } else if str_eq(name, "em") {
        Some(Ctor::HtmlTag("em".to_owned()))
    } else if str_eq(name, "i") {
        Some(Ctor::HtmlTag("i".to_owned()))
    } else if str_eq(name, "b") {
        Some(Ctor::HtmlTag("b".to_owned()))
    } else if str_eq(name, "q") {
        Some(Ctor::HtmlTag("q".to_owned()))
    } else if str_eq(name, "s") {
        Some(Ctor::HtmlTag("s".to_owned()))
    } else if str_eq(name, "span") {
        Some(Ctor::HtmlTag("span".to_owned()))
    } else if str_eq(name, "strong") {
        Some(Ctor::HtmlTag("strong".to_owned()))
    } else if str_eq(name, "script") {
        Some(Ctor::HtmlTag("script".to_owned()))
    } else if str_eq(name, "table") {
        Some(Ctor::HtmlTag("table".to_owned()))
    } else if str_eq(name, "thead") {
        Some(Ctor::HtmlTag("thead".to_owned()))
    } else if str_eq(name, "tbody") {
        Some(Ctor::HtmlTag("tbody".to_owned()))
    } else if str_eq(name, "tr") {
        Some(Ctor::HtmlTag("tr".to_owned()))
    } else if str_eq(name, "th") {
        Some(Ctor::HtmlTag("th".to_owned()))
    } else if str_eq(name, "td") {
        Some(Ctor::HtmlTag("td".to_owned()))
    } else if str_eq(name, "p") {
        Some(Ctor::P)
    } else if str_eq(name, "copy") {
        Some(Ctor::CopyAll)
    } else if str_eq(name, "drop") {
        Some(Ctor::DropContent)
    } else if str_eq(name, "cases") {
        Some(Ctor::Cases)
    } else if str_eq(name, "case") {
        Some(Ctor::CaseOf)
    } else if str_eq(name, "chapternav") {
        Some(Ctor::ChapterNav)
    } else if str_eq(name, "fleqn") {
        Some(Ctor::Fleqn)
    } else if str_eq(name, "cwd") {
        Some(Ctor::Cwd)
    } else if str_eq(name, "set_domain") {
        Some(Ctor::SetDomain)
    } else if str_eq(name, "definition") {
        Some(Ctor::BoxOf(BoxKind::definition(), "Definition".to_owned()))
    } else if str_eq(name, "example") {
        Some(Ctor::BoxOf(BoxKind::example(), "Example".to_owned()))
    } else if str_eq(name, "figure") {
        Some(Ctor::BoxOf(BoxKind::example(), "Figure".to_owned()))
    } else if str_eq(name, "exercise") {
        Some(Ctor::BoxOf(BoxKind::exercise(), "Exercise".to_owned()))
    } else if str_eq(name, "proof") {
        Some(Ctor::ProofBox)
    } else if str_eq(name, "definex") {
        Some(Ctor::Define(true))
    } else if str_eq(name, "proof_part") {
        Some(Ctor::ProofPart)
    } else if str_eq(name, "link") {
        Some(Ctor::Link)
    } else if str_eq(name, "captioned") {
        Some(Ctor::Captioned)
    } else if str_eq(name, "set_math_id") {
        Some(Ctor::SetMathId)
    } else if str_eq(name, "$set") {
        Some(Ctor::MathSet)
    } else if str_eq(name, "$set_builder") {
        Some(Ctor::MathSetBuilder)
    } else if str_eq(name, "$$align*") {
        Some(Ctor::MathEnv("align*".to_owned()))
    } else if str_eq(name, "$p") {
        Some(Ctor::MathGroupingParens)
    } else if str_eq(name, "solution") {
        Some(Ctor::Toggled("Show Solution".to_owned(), "Hide Solution".to_owned()))
    } else if str_eq(name, "proof_as_exercise") {
        Some(Ctor::Toggled("Show Proof".to_owned(), "Hide Proof".to_owned()))
    } else if str_eq(name, "pretty_venn_duration") {
        Some(Ctor::Const("60s".to_owned()))
    } else if str_eq(name, "meta1") {
        Some(Ctor::Const("<i class=\"bgclll1 highlight low\">bla</i>".to_owned()))
    } else if str_eq(name, "meta2") {
        Some(Ctor::Const("<i class=\"bgclll3 highlight low\">blubb</i>".to_owned()))
    } else if str_eq(name, "meta3") {
        Some(Ctor::Const("<i class=\"bgclll5 highlight low\">blip</i>".to_owned()))
    } else if str_eq(name, "$mid") {
        Some(Ctor::Const("\\mid".to_owned()))
    } else if str_eq(name, "symbol0") {
        Some(Ctor::Const("<span class=\"symbol_container\">\u{e904}/span>".to_owned()))
    } else if str_eq(name, "$symbol0") {
        Some(Ctor::Const("\\htmlClass{symbol_container}{\\char\"e904}".to_owned()))
    } else if str_eq(name, "symbol1") {
        Some(Ctor::Const("<span class=\"symbol_container\">\u{e903}</span>".to_owned()))
    } else if str_eq(name, "$symbol1") {
        Some(Ctor::Const("\\htmlClass{symbol_container}{\\char\"e903}".to_owned()))
    } else if str_eq(name, "symbol2") {
        Some(Ctor::Const("<span class=\"symbol_container\">\u{e902}</span>".to_owned()))
    } else if str_eq(name, "$symbol2") {
        Some(Ctor::Const("\\htmlClass{symbol_container}{\\char\"e902}".to_owned()))
    } else if str_eq(name, "symbol3") {
        Some(Ctor::Const("<span class=\"symbol_container\">\u{e901}</span>".to_owned()))
    } else if str_eq(name, "$symbol3") {
        Some(Ctor::Const("\\htmlClass{symbol_container}{\\char\"e901}".to_owned()))
    } else if str_eq(name, "symbol4") {
        Some(Ctor::Const("<span class=\"symbol_container\">\u{e900}</span>".to_owned()))
    } else if str_eq(name, "$symbol4") {
        Some(Ctor::Const("\\htmlClass{symbol_container}{\\char\"e900}".to_owned()))
    } else if str_eq(name, "hr") {
        Some(Ctor::Const("<hr>".to_owned()))
    } else if str_eq(name, "br") {
        Some(Ctor::Const("<br>".to_owned()))
    } else if str_eq(name, "$ldots") {
        Some(Ctor::Const("\\ldots".to_owned()))
    } else if str_eq(name, "lorem") {
        Some(Ctor::Const(LOREM.to_owned()))
    } else if str_eq(name, "euler_svg") {
        Some(Ctor::Const(EULER_SVG.to_owned()))
    } else if str_eq(name, "euler_svg_union") {
        Some(Ctor::Const(EULER_SVG_UNION.to_owned()))
    } else if str_eq(name, "euler_svg_setminus") {
        Some(Ctor::Const(EULER_SVG_SETMINUS.to_owned()))
    } else if str_eq(name, "euler_svg_equality") {
        Some(Ctor::Const(EULER_SVG_EQUALITY.to_owned()))
    } else if str_eq(name, "euler_svg_intersection") {
        Some(Ctor::Const(EULER_SVG_INTERSECTION.to_owned()))
    } else if str_eq(name, "statement") {
        Some(Ctor::Fact("Statement".to_owned(), false))
    } else if str_eq(name, "statement*") {
        Some(Ctor::Fact("Statement".to_owned(), true))
    } else if str_eq(name, "observation") {
        Some(Ctor::Fact("Observation".to_owned(), false))
    } else if str_eq(name, "observation*") {
        Some(Ctor::Fact("Observation".to_owned(), true))
    } else if str_eq(name, "theorem") {
        Some(Ctor::Fact("Theorem".to_owned(), false))
    } else if str_eq(name, "theorem*") {
        Some(Ctor::Fact("Theorem".to_owned(), true))
    } else if str_eq(name, "lemma") {
        Some(Ctor::Fact("Lemma".to_owned(), false))
    } else if str_eq(name, "lemma*") {
        Some(Ctor::Fact("Lemma".to_owned(), true))
    } else if str_eq(name, "corollary") {
        Some(Ctor::Fact("Corollary".to_owned(), false))
    } else if str_eq(name, "corollary*") {
        Some(Ctor::Fact("Corollary".to_owned(), true))
    } else if str_eq(name, "conjecture") {
        Some(Ctor::Fact("Conjecture".to_owned(), false))
    } else if str_eq(name, "conjecture*") {
        Some(Ctor::Fact("Conjecture".to_owned(), true))
    } else if str_eq(name, "falsehood") {
        Some(Ctor::Fact("Falsehood".to_owned(), false))
    } else if str_eq(name, "falsehood*") {
        Some(Ctor::Fact("Falsehood".to_owned(), true))
    } else if str_eq(name, "r") {
        Some(Ctor::ReferenceDefined(false, false, false))
    } else if str_eq(name, "R") {
        Some(Ctor::ReferenceDefined(true, false, false))
    } else if str_eq(name, "rs") {
        Some(Ctor::ReferenceDefined(false, true, false))
    } else if str_eq(name, "Rs") {
        Some(Ctor::ReferenceDefined(true, true, false))
    } else if str_eq(name, "rdef") {
        Some(Ctor::ReferenceDefined(false, false, true))
    } else if str_eq(name, "Rdef") {
        Some(Ctor::ReferenceDefined(true, false, true))
    } else if str_eq(name, "rsdef") {
        Some(Ctor::ReferenceDefined(false, true, true))
    } else if str_eq(name, "Rsdef") {
        Some(Ctor::ReferenceDefined(true, true, true))
    } else if str_eq(name, "proven_fact") {
        Some(Ctor::Enclose("<div class=\"proven_fact\">".to_owned(), "</div>".to_owned()))
    } else if str_eq(name, "clfx") {
        Some(Ctor::Enclose("<div class=\"clfx\">".to_owned(), "</div>".to_owned()))
    } else if str_eq(name, "$value") {
        Some(Ctor::Enclose("\\mathrm{".to_owned(), "}".to_owned()))
    } else if str_eq(name, "$cancel") {
        Some(Ctor::Enclose("\\cancel{".to_owned(), "}".to_owned()))
    } else if str_eq(name, "$bcancel") {
        Some(Ctor::Enclose("\\bcancel{".to_owned(), "}".to_owned()))
    } else if str_eq(name, "$xcancel") {
        Some(Ctor::Enclose("\\xcancel{".to_owned(), "}".to_owned()))
    } else if str_eq(name, "$sout") {
        Some(Ctor::Enclose("\\sout{".to_owned(), "}".to_owned()))
    } else if str_eq(name, "$cancel_symbol") {
        Some(Ctor::Enclose("\\htmlClass{cancel_symbol}{".to_owned(), "}".to_owned()))
    } else if str_eq(name, "$define_notation") {
        Some(Ctor::Enclose("\\htmlClass{define_notation}{".to_owned(), "}".to_owned()))
    } else if str_eq(name, "$text_color") {
        Some(Ctor::Enclose("\\htmlClass{text_color}{".to_owned(), "}".to_owned()))
    } else if str_eq(name, "nowrap") {
        Some(Ctor::Enclose("<span class=\"nowrap\">".to_owned(), "</span>".to_owned()))
    } else if str_eq(name, "video_container") {
        Some(Ctor::Enclose("<div class=\"video_container\">".to_owned(), "</div>".to_owned()))
    } else if str_eq(name, "nobr") {
        Some(Ctor::Enclose("<span class=\"nobr\">".to_owned(), "</span>".to_owned()))
    } else if str_eq(name, "$tag") {
        Some(Ctor::Enclose("\\tag{".to_owned(), "}".to_owned()))
    } else if str_eq(name, "$text") {
        Some(Ctor::Enclose("\\text{".to_owned(), "}".to_owned()))
    } else if str_eq(name, "highlightlow1") {
        Some(Ctor::Enclose("<span class=\"bgclll1 highlight low\">".to_owned(), "</span>".to_owned()))
    } else if str_eq(name, "$highlightlow1") {
        Some(Ctor::Enclose("\\htmlClass{bgclll1 highlight low}{".to_owned(), "}".to_owned()))
    } else if str_eq(name, "$highlighttop1") {
        Some(Ctor::Enclose("\\htmlClass{bgclll1 highlight top}{".to_owned(), "}".to_owned()))
    } else if str_eq(name, "$highlightlowr1") {
        Some(Ctor::Enclose("\\htmlClass{bgclll1 highlight rightspace low}{".to_owned(), "}".to_owned()))
    } else if str_eq(name, "$highlighttopr1") {
        Some(Ctor::Enclose("\\htmlClass{bgclll1 highlight rightspace top}{".to_owned(), "}".to_owned()))
    } else if str_eq(name, "$highlight1") {
        Some(Ctor::Enclose("\\htmlClass{bgmclll1}{".to_owned(), "}".to_owned()))
    } else if str_eq(name, "$highlight1_direct") {
        Some(Ctor::Enclose("\\htmlClass{bgmcllldirect1}{".to_owned(), "}".to_owned()))
    } else if str_eq(name, "highlightlow2") {
        Some(Ctor::Enclose("<span class=\"bgclll2 highlight low\">".to_owned(), "</span>".to_owned()))
    } else if str_eq(name, "$highlightlow2") {
        Some(Ctor::Enclose("\\htmlClass{bgclll2 highlight low}{".to_owned(), "}".to_owned()))
    } else if str_eq(name, "$highlighttop2") {
        Some(Ctor::Enclose("\\htmlClass{bgclll2 highlight top}{".to_owned(), "}".to_owned()))
    } else if str_eq(name, "$highlightlowr2") {
        Some(Ctor::Enclose("\\htmlClass{bgclll2 highlight rightspace low}{".to_owned(), "}".to_owned()))
    } else if str_eq(name, "$highlighttopr2") {
        Some(Ctor::Enclose("\\htmlClass{bgclll2 highlight rightspace top}{".to_owned(), "}".to_owned()))
    } else if str_eq(name, "$highlight2") {
        Some(Ctor::Enclose("\\htmlClass{bgmclll2}{".to_owned(), "}".to_owned()))
    } else if str_eq(name, "$highlight2_direct") {
        Some(Ctor::Enclose("\\htmlClass{bgmcllldirect2}{".to_owned(), "}".to_owned()))
    } else if str_eq(name, "highlightlow3") {
        Some(Ctor::Enclose("<span class=\"bgclll3 highlight low\">".to_owned(), "</span>".to_owned()))
    } else if str_eq(name, "$highlightlow3") {
        Some(Ctor::Enclose("\\htmlClass{bgclll3 highlight low}{".to_owned(), "}".to_owned()))
    } else if str_eq(name, "$highlighttop3") {
        Some(Ctor::Enclose("\\htmlClass{bgclll3 highlight top}{".to_owned(), "}".to_owned()))
    } else if str_eq(name, "$highlightlowr3") {
        Some(Ctor::Enclose("\\htmlClass{bgclll3 highlight rightspace low}{".to_owned(), "}".to_owned()))
    } else if str_eq(name, "$highlighttopr3") {
        Some(Ctor::Enclose("\\htmlClass{bgclll3 highlight rightspace top}{".to_owned(), "}".to_owned()))
    } else if str_eq(name, "$highlight3") {
        Some(Ctor::Enclose("\\htmlClass{bgmclll3}{".to_owned(), "}".to_owned()))
    } else if str_eq(name, "$highlight3_direct") {
        Some(Ctor::Enclose("\\htmlClass{bgmcllldirect3}{".to_owned(), "}".to_owned()))
    } else if str_eq(name, "highlightlow4") {
        Some(Ctor::Enclose("<span class=\"bgclll4 highlight low\">".to_owned(), "</span>".to_owned()))
    } else if str_eq(name, "$highlightlow4") {
        Some(Ctor::Enclose("\\htmlClass{bgclll4 highlight low}{".to_owned(), "}".to_owned()))
    } else if str_eq(name, "$highlighttop4") {
        Some(Ctor::Enclose("\\htmlClass{bgclll4 highlight top}{".to_owned(), "}".to_owned()))
    } else if str_eq(name, "$highlightlowr4") {
        Some(Ctor::Enclose("\\htmlClass{bgclll4 highlight rightspace low}{".to_owned(), "}".to_owned()))
    } else if str_eq(name, "$highlighttopr4") {
        Some(Ctor::Enclose("\\htmlClass{bgclll4 highlight rightspace top}{".to_owned(), "}".to_owned()))
    } else if str_eq(name, "$highlight4") {
        Some(Ctor::Enclose("\\htmlClass{bgmclll4}{".to_owned(), "}".to_owned()))
    } else if str_eq(name, "$highlight4_direct") {
        Some(Ctor::Enclose("\\htmlClass{bgmcllldirect4}{".to_owned(), "}".to_owned()))
    } else if str_eq(name, "highlightlow5") {
        Some(Ctor::Enclose("<span class=\"bgclll5 highlight low\">".to_owned(), "</span>".to_owned()))
    } else if str_eq(name, "$highlightlow5") {
        Some(Ctor::Enclose("\\htmlClass{bgclll5 highlight low}{".to_owned(), "}".to_owned()))
    } else if str_eq(name, "$highlighttop5") {
        Some(Ctor::Enclose("\\htmlClass{bgclll5 highlight top}{".to_owned(), "}".to_owned()))
    } else if str_eq(name, "$highlightlowr5") {
        Some(Ctor::Enclose("\\htmlClass{bgclll5 highlight rightspace low}{".to_owned(), "}".to_owned()))
    } else if str_eq(name, "$highlighttopr5") {
        Some(Ctor::Enclose("\\htmlClass{bgclll5 highlight rightspace top}{".to_owned(), "}".to_owned()))
    } else if str_eq(name, "$highlight5") {
        Some(Ctor::Enclose("\\htmlClass{bgmclll5}{".to_owned(), "}".to_owned()))
    } else if str_eq(name, "$highlight5_direct") {
        Some(Ctor::Enclose("\\htmlClass{bgmcllldirect5}{".to_owned(), "}".to_owned()))
    } else if str_eq(name, "highlightlow6") {
        Some(Ctor::Enclose("<span class=\"bgclll6 highlight low\">".to_owned(), "</span>".to_owned()))
    } else if str_eq(name, "$highlightlow6") {
        Some(Ctor::Enclose("\\htmlClass{bgclll6 highlight low}{".to_owned(), "}".to_owned()))
    } else if str_eq(name, "$highlighttop6") {
        Some(Ctor::Enclose("\\htmlClass{bgclll6 highlight top}{".to_owned(), "}".to_owned()))
    } else if str_eq(name, "$highlightlowr6") {
        Some(Ctor::Enclose("\\htmlClass{bgclll6 highlight rightspace low}{".to_owned(), "}".to_owned()))
    } else if str_eq(name, "$highlighttopr6") {
        Some(Ctor::Enclose("\\htmlClass{bgclll6 highlight rightspace top}{".to_owned(), "}".to_owned()))
    } else if str_eq(name, "$highlight6") {
        Some(Ctor::Enclose("\\htmlClass{bgmclll6}{".to_owned(), "}".to_owned()))
    } else if str_eq(name, "$highlight6_direct") {
        Some(Ctor::Enclose("\\htmlClass{bgmcllldirect6}{".to_owned(), "}".to_owned()))
    } else if str_eq(name, "$class") {
        Some(Ctor::Enclose2("\\htmlClass{".to_owned(), "}{".to_owned(), "}".to_owned()))
    } else if str_eq(name, "fact_marginalia") {
        Some(Ctor::Enclose2("<div class=\"box_marginalia fact clfx slightlywide\"><span class=\"aside\">".to_owned(), "</span>".to_owned(), "</div>".to_owned()))
    } else if str_eq(name, "exercise_marginalia") {
        Some(Ctor::Enclose2("<div class=\"box_marginalia exercise clfx slightlywide\"><span class=\"aside\">".to_owned(), "</span>".to_owned(), "</div>".to_owned()))
    } else if str_eq(name, "definition_marginalia") {
        Some(Ctor::Enclose2("<div class=\"box_marginalia definition clfx slightlywide\"><span class=\"aside\">".to_owned(), "</span>".to_owned(), "</div>".to_owned()))
    } else if str_eq(name, "$eq") {
        Some(Ctor::MathMacro("eq".to_owned(), "=".to_owned()))
    } else if str_eq(name, "$neq") {
        Some(Ctor::MathMacro("neq".to_owned(), "\\neq".to_owned()))
    } else if str_eq(name, "$leq") {
        Some(Ctor::MathMacro("leq".to_owned(), "\\leq".to_owned()))
    } else if str_eq(name, "$implies") {
        Some(Ctor::MathMacro("implies".to_owned(), "\\implies".to_owned()))
    } else if str_eq(name, "$impliedby") {
        Some(Ctor::MathMacro("impliedby".to_owned(), "\\impliedby".to_owned()))
    } else if str_eq(name, "$iff") {
        Some(Ctor::MathMacro("iff".to_owned(), "\\iff".to_owned()))
    } else if str_eq(name, "$in") {
        Some(Ctor::MathMacro("in".to_owned(), "\\in".to_owned()))
    } else if str_eq(name, "$notin") {
        Some(Ctor::MathMacro("notin".to_owned(), "\\notin".to_owned()))
    } else if str_eq(name, "$seq") {
        Some(Ctor::MathMacro("seq".to_owned(), "=".to_owned()))
    } else if str_eq(name, "$sneq") {
        Some(Ctor::MathMacro("sneq".to_owned(), "\\neq".to_owned()))
    } else if str_eq(name, "$defeq") {
        Some(Ctor::MathMacro("defeq".to_owned(), "\\coloneqq".to_owned()))
    } else if str_eq(name, "$eqdef") {
        Some(Ctor::MathMacro("eqdef".to_owned(), "\\eqqcolon".to_owned()))
    } else if str_eq(name, "$subseteq") {
        Some(Ctor::MathMacro("subseteq".to_owned(), "\\subseteq".to_owned()))
    } else if str_eq(name, "$subset") {
        Some(Ctor::MathMacro("subset".to_owned(), "\\subset".to_owned()))
    } else if str_eq(name, "$supseteq") {
        Some(Ctor::MathMacro("supseteq".to_owned(), "\\supseteq".to_owned()))
    } else if str_eq(name, "$supset") {
        Some(Ctor::MathMacro("supset".to_owned(), "\\supset".to_owned()))
    } else if str_eq(name, "$nsubseteq") {
        Some(Ctor::MathMacro("nsubseteq".to_owned(), "\\nsubseteq".to_owned()))
    } else if str_eq(name, "$nsupseteq") {
        Some(Ctor::MathMacro("nsupseteq".to_owned(), "\\nsupseteq".to_owned()))
    } else if str_eq(name, "$nsubset") {
        Some(Ctor::MathMacro("nsubset".to_owned(), "\\not\\subset".to_owned()))
    } else if str_eq(name, "$nsupset") {
        Some(Ctor::MathMacro("nsupset".to_owned(), "\\not\\supset".to_owned()))
    } else if str_eq(name, "$intersection") {
        Some(Ctor::MathMacro("intersection".to_owned(), "\\cap".to_owned()))
    } else if str_eq(name, "$union") {
        Some(Ctor::MathMacro("union".to_owned(), "\\cup".to_owned()))
    } else if str_eq(name, "$setminus") {
        Some(Ctor::MathMacro("setminus".to_owned(), "\\setminus".to_owned()))
    } else if str_eq(name, "$symdif") {
        Some(Ctor::MathMacro("symdif".to_owned(), "\\operatorname{\\triangle}".to_owned()))
    } else if str_eq(name, "$twice") {
        Some(Ctor::EncloseFunctionApplication("twice".to_owned(), "\\operatorname{twice}".to_owned()))
    } else if str_eq(name, "$powerset") {
        Some(Ctor::EncloseFunctionApplication("powerset".to_owned(), "\\operatorname{\\mathcal{P}}".to_owned()))
    } else {
        None
    }
}

/// Flushes a text run: the pending escape literals in `text` followed by
/// the raw slice `start..stop` of the source, as one `Text` node.
fn flush_text(
    s: &str,
    text: String,
    start: usize,
    stop: usize,
    t_start: usize,
    t_end: usize,
    outs: &mut Vec<OutInternal>,
)
    requires
        start <= s@.len(),
        stop <= s@.len(),
    ensures
        final(outs)@.len() == old(outs)@.len() + 1,
        final(outs)@ == old(outs)@.push(final(outs)@.last()),
        text_run(final(outs)@.last()) == Some(
            text@ + slice_guard(s@, start as int, stop as int),
        ),
{
    let mut text = text;
    let ghost text0 = text@;
    if start <= stop {
        let slice = s.substring_char(start, stop);
        crate::text::push_str(&mut text, slice);
    } else {
        proof {
            assert(text@ =~= text0 + slice_guard(s@, start as int, stop as int));
        }
    }
    outs.push(OutInternal::Text(text, Trace::span(t_start, t_end)));
    proof {
        assert(final(outs)@ =~= old(outs)@.push(final(outs)@.last()));
    }
}

/// Parses one fragment: from `pos` until the end of the input or the
/// closing parenthesis of the group the fragment stands in (consumed).
/// Leading whitespace and comments are dropped; contiguous literal text
/// coalesces into one `Text` node per run; a single item is handed back
/// alone, several become a `Many`. A fragment in the literal regime scans
/// exactly to `spec_literal`: a doubled sigil to a literal sigil, sigil +
/// parenthesis to a literal parenthesis, sigil + `#` discarding the line.
#[verifier::loop_isolation(false)]
pub fn parse_content(s: &str, pos: usize, off: usize) -> (r: Result<
    (OutInternal, usize),
    ParseError,
>)
    requires
        pos <= s@.len(),
        off + s@.len() < usize::MAX,
    ensures
        (r matches Ok(p) ==> pos <= p.1 <= s@.len()),
        (spec_literal(s@, pos as int) matches Some(c) ==> (r matches Ok(p) && flat_text(p.0) == Some(
            c,
        ) && p.1 == s@.len())),
        (spec_literal(s@, pos as int) matches Some(c) ==> (no_sigil_after(s@, pos as int) ==> (
        r matches Ok(p) && p.0 matches OutInternal::Text(tt, tr) && tt@ == c))),
        (spec_first_bareword(s@, pos as int) matches Some(w) ==> (spec_dispatch(w) is None ==> (
        r matches Err(e) && e matches ParseError::UnknownMacroName(tr)))),
        (spec_group_end(s@, spec_skip_leading(s@, pos as int), 1) matches Some(endpos) ==> (
        r matches Ok(p) && p.1 == endpos)),
    decreases s@.len() - pos, 2int,
{
    let ghost litv = spec_literal(s@, pos as int);
    let ghost fbw = spec_first_bareword(s@, pos as int);
    let ghost fbw_bad = (fbw matches Some(w) && spec_dispatch(w) is None);
    let ghost grp = spec_group_end(s@, spec_skip_leading(s@, pos as int), 1);
    let n = s.unicode_len();
    let entry_global = off + pos;
    let mut cur = skip_leading_ws(s, pos);
    let mut outs: Vec<OutInternal> = Vec::new();
    let mut text = String::new();
    let mut start = cur;
    let mut last_non_ws = cur;
    let mut pending: usize = 1;
    proof {
        assert(texts_concat(outs@, 0) == Some(Seq::<char>::empty()));
        lemma_first_bareword_leading(s@, pos as int);
    }
    loop
        invariant
            (fbw_bad ==> spec_first_bareword(s@, cur as int) == fbw),
            (grp is Some ==> spec_group_end(s@, cur as int, pending as int) == grp),
            spec_skip_leading(s@, pos as int) <= cur,
            (litv is Some && no_sigil_after(s@, pos as int) ==> outs@.len() == 0 && text@
                == Seq::<char>::empty()),
            pos <= cur <= n,
            n == s@.len(),
            off + n < usize::MAX,
            start <= n,
            last_non_ws <= n,
            1 <= pending <= cur + 1,
            (litv is Some ==> texts_concat(outs@, 0) is Some),
            (litv is Some ==> spec_literal_scan(
                s@,
                cur as int,
                start as int,
                last_non_ws as int,
                text@,
                texts_concat(outs@, 0).unwrap(),
            ) == litv),
        decreases n - cur,
    {
        let ghost i0 = cur as int;
        let ghost start0 = start as int;
        let ghost last0 = last_non_ws as int;
        let ghost text_pre = text@;
        let ghost acc_pre = texts_concat(outs@, 0);
        if cur >= n {
            let ghost outs_pre = outs@;
            flush_text(s, text, start, last_non_ws, entry_global, off + cur, &mut outs);
            proof {
                if litv is Some {
                    lemma_texts_concat_push(outs_pre, outs@.last(), 0);
                    assert(texts_concat(outs@, 0).unwrap() =~= litv.unwrap());
                }
            }
            let node = collapse(outs);
            proof {
                if litv is Some {
                    crate::ast::lemma_collapse_literal_runs(outs@, node);
                }
            }
            return Ok((node, cur));
        }
        let c = s.get_char(cur);
        if c == '\u{a7}' {
            let ghost outs_pre = outs@;
            flush_text(s, text, start, cur, entry_global, off + cur + 1, &mut outs);
            proof {
                if litv is Some {
                    lemma_texts_concat_push(outs_pre, outs@.last(), 0);
                    assert(texts_concat(outs@, 0).unwrap() =~= acc_pre.unwrap() + text_pre
                        + slice_guard(s@, start0, i0));
                }
            }
            text = String::new();
            cur = cur + 1;
            if cur < n && s.get_char(cur) == '\u{a7}' {
                text = "\u{a7}".to_owned();
                cur = cur + 1;
                start = cur;
                last_non_ws = cur;
                proof {
                    if litv is Some {
                        reveal_strlit("\u{a7}");
                        assert(text@ =~= seq![spec_sigil()]);
                    }
                }
            } else if cur < n && s.get_char(cur) == '(' {
                text = "(".to_owned();
                cur = cur + 1;
                start = cur;
                last_non_ws = cur;
                proof {
                    if litv is Some {
                        reveal_strlit("(");
                        assert(text@ =~= seq!['(']);
                    }
                }
            } else if cur < n && s.get_char(cur) == ')' {
                text = ")".to_owned();
                cur = cur + 1;
                start = cur;
                last_non_ws = cur;
                proof {
                    if litv is Some {
                        reveal_strlit(")");
                        assert(text@ =~= seq![')']);
                    }
                }
            } else if cur < n && s.get_char(cur) == '#' {
                cur = skip_line(s, cur + 1);
                start = cur;
                proof {
                    if litv is Some {
                        assert(text@ =~= Seq::<char>::empty());
                    }
                }
            } else {
                proof {
                    if litv is Some {
                        assert(false);
                    }
                    lemma_scan_name_bounds(s@, cur as int);
                }
                let trace_start = off + cur;
                let name_end = scan_name(s, cur);
                let name = s.substring_char(cur, name_end).to_owned();
                let parse_parameters = name_end < n && (s.get_char(name_end) == '['
                    || s.get_char(name_end) == '{');
                let is_empty_name = name.unicode_len() == 0;
                proof {
                    if fbw_bad {
                        assert(spec_first_bareword(s@, i0) == Some(name@));
                    }
                }
                match dispatch(name.as_str()) {
                    None => {
                        return Err(ParseError::UnknownMacroName(
                            Trace::span(trace_start, off + name_end),
                        ));
                    },
                    Some(ctor) => {
                        match parse_macro(s, name_end, off, ctor, parse_parameters, trace_start) {
                            Err(e) => {
                                return Err(e);
                            },
                            Ok((node, newpos)) => {
                                outs.push(node);
                                cur = newpos;
                                last_non_ws = cur;
                                start = cur;
                                if is_empty_name {
                                    if cur < n {
                                        last_non_ws = cur;
                                        cur = cur + 1;
                                    }
                                    start = cur;
                                }
                            },
                        }
                    },
                }
            }
        } else {
            proof {
                if litv is Some && (c == '(' || c == ')') {
                    assert(false);
                }
            }
            cur = cur + 1;
            if c == '(' {
                pending = pending + 1;
                last_non_ws = cur;
            } else if c == ')' {
                pending = pending - 1;
                if pending == 0 {
                    flush_text(s, text, start, last_non_ws, entry_global, off + cur, &mut outs);
                    return Ok((collapse(outs), cur));
                } else {
                    last_non_ws = cur;
                }
            } else if is_m_ws(c) {
            } else {
                last_non_ws = cur;
            }
        }
    }
}

/// A single top-level item collapses to itself; several become a `Many`.
fn collapse(outs: Vec<OutInternal>) -> (r: OutInternal)
    ensures
        (outs@.len() == 1 ==> r == outs@[0]),
        (outs@.len() != 1 ==> (r matches OutInternal::Many(v) && v@ == outs@)),
{
    let ghost outs0 = outs@;
    let mut outs = outs;
    if outs.len() == 1 {
        match outs.pop() {
            Some(o) => o,
            None => OutInternal::Many(outs),
        }
    } else {
        OutInternal::Many(outs)
    }
}

/// Parses the argument groups after a macro: each directly following `(`
/// opens one argument, parsed as a fragment of its own.
fn parse_args(s: &str, pos: usize, off: usize) -> (r: Result<
    (Vec<OutInternal>, usize),
    ParseError,
>)
    requires
        pos <= s@.len(),
        off + s@.len() < usize::MAX,
    ensures
        (r matches Ok(p) ==> pos <= p.1 <= s@.len()),
    decreases s@.len() - pos, 0int,
{
    let n = s.unicode_len();
    let mut args: Vec<OutInternal> = Vec::new();
    let mut cur = pos;
    loop
        invariant
            pos <= cur <= n,
            n == s@.len(),
            off + n < usize::MAX,
        decreases n - cur,
    {
        if cur < n && s.get_char(cur) == '(' {
            match parse_content(s, cur + 1, off) {
                Err(e) => {
                    return Err(e);
                },
                Ok((node, newpos)) => {
                    args.push(node);
                    cur = newpos;
                },
            }
        } else {
            return Ok((args, cur));
        }
    }
}


/// Whether a present parameter literal fails to decode against the shape
/// the table entry declares.
pub open spec fn spec_params_fail(ctor: Ctor, s: Seq<char>, pos: int) -> bool {
    match ctor {
        Ctor::HtmlTag(_) => params::spec_str_map(s, pos) is None,
        Ctor::Input => one_string_fails(s, pos),
        Ctor::Output(_) => one_string_fails(s, pos),
        Ctor::HSection(_) => one_string_fails(s, pos),
        Ctor::CaseOf => one_string_fails(s, pos),
        Ctor::Toggled(_, _) => one_string_fails(s, pos),
        Ctor::CopyAll => two_string_fails(s, pos),
        Ctor::SetMathId => two_string_fails(s, pos),
        Ctor::BoxOf(_, _) => params::spec_str_array(s, pos) is None,
        Ctor::Fact(_, _) => params::spec_str_array(s, pos) is None,
        Ctor::ProofBox => params::spec_str_array(s, pos) is None,
        Ctor::Define(_) => params::spec_str_array(s, pos) is None,
        Ctor::MathSet => params::spec_u8_array1(s, pos) is None,
        Ctor::MathSetBuilder => params::spec_u8_array1(s, pos) is None,
        Ctor::MathGroupingParens => params::spec_u8_array1(s, pos) is None,
        Ctor::EncloseFunctionApplication(_, _) => params::spec_u8_array1(s, pos) is None,
        Ctor::MathMacro(_, _) => params::spec_bool_array1(s, pos) is None,
        Ctor::SetDomain => params::spec_bare_string(s, pos) is None,
        _ => params::spec_nil_lit(s, params::spec_skip_ws(s, pos, false)) is None,
    }
}

/// A one-string shape fails off an array of exactly one string.
pub open spec fn one_string_fails(s: Seq<char>, pos: int) -> bool {
    match params::spec_str_array(s, pos) {
        None => true,
        Some(d) => d.0.len() != 1,
    }
}

/// A two-string shape fails off an array of exactly two strings.
pub open spec fn two_string_fails(s: Seq<char>, pos: int) -> bool {
    match params::spec_str_array(s, pos) {
        None => true,
        Some(d) => d.0.len() != 2,
    }
}

/// Whether `node` is the node the table entry constructs: the entry's own
/// variant, carrying the entry's constant material and flags.
pub open spec fn node_of_ctor(node: OutInternal, c: Ctor) -> bool {
    match c {
        Ctor::EmptyMacro => node matches OutInternal::EmptyMacro(t, a),
        Ctor::HtmlTag(tag) => (node matches OutInternal::HtmlTag(t, tag2, at, a) && tag2 == tag),
        Ctor::P => node matches OutInternal::P(t, a),
        Ctor::Input => node matches OutInternal::Input(t, p, a),
        Ctor::Output(tee) => (node matches OutInternal::Output(t, p, a, tee2) && tee2 == tee),
        Ctor::CopyAll => node matches OutInternal::CopyAll(t, f, g, a),
        Ctor::Template => node matches OutInternal::Template(t, p, a),
        Ctor::HSection(nn) => (node matches OutInternal::HSection(t, p, a, nn2) && nn2 == nn),
        Ctor::DropContent => node matches OutInternal::Drop(t, a),
        Ctor::Const(body) => (node matches OutInternal::Const(t, a, body2) && body2 == body),
        Ctor::Cref => node matches OutInternal::Cref(t, a),
        Ctor::Cases => node matches OutInternal::Cases(t, a),
        Ctor::CaseOf => node matches OutInternal::Case(t, p, a),
        Ctor::ChapterNav => node matches OutInternal::ChapterNav(t, a),
        Ctor::TeX(d) => (node matches OutInternal::TeX(t, a, d2) && d2 == d),
        Ctor::Fleqn => node matches OutInternal::Fleqn(t, a),
        Ctor::Cwd => node matches OutInternal::Cwd(t, a),
        Ctor::SetDomain => node matches OutInternal::SetDomain(t, d, a),
        Ctor::BoxOf(k, nm) => (node matches OutInternal::Box(t, p, a, k2, nm2) && k2 == k && nm2
            == nm),
        Ctor::Fact(nm, nn) => (node matches OutInternal::Fact(t, p, a, nm2, nn2) && nm2 == nm
            && nn2 == nn),
        Ctor::ProofBox => node matches OutInternal::Proof(t, p, a),
        Ctor::Define(ct) => (node matches OutInternal::Define(t, p, a, ct2) && ct2 == ct),
        Ctor::ProofPart => node matches OutInternal::ProofPart(t, a),
        Ctor::ReferenceDefined(c1, p1, f1) => (node matches OutInternal::ReferenceDefined(
            t,
            a,
            c2,
            p2,
            f2,
        ) && c2 == c1 && p2 == p1 && f2 == f1),
        Ctor::Enclose(pre, post) => (node matches OutInternal::Enclose(t, a, pre2, post2) && pre2
            == pre && post2 == post),
        Ctor::Enclose2(pre, mid, post) => (node matches OutInternal::Enclose2(
            t,
            a,
            pre2,
            mid2,
            post2,
        ) && pre2 == pre && mid2 == mid && post2 == post),
        Ctor::Toggled(iv, vv) => (node matches OutInternal::Toggled(t, p, a, iv2, vv2) && iv2
            == iv && vv2 == vv),
        Ctor::Link => node matches OutInternal::Link(t, a),
        Ctor::Captioned => node matches OutInternal::Captioned(t, a),
        Ctor::SetMathId => node matches OutInternal::SetMathId(t, p, a),
        Ctor::MathSet => node matches OutInternal::MathSet(t, p, a),
        Ctor::MathSetBuilder => node matches OutInternal::MathSetBuilder(t, p, a),
        Ctor::MathEnv(env) => (node matches OutInternal::MathEnv(t, a, env2) && env2 == env),
        Ctor::MathMacro(idm, tex) => (node matches OutInternal::MathMacro(t, p, a, idm2, tex2)
            && idm2 == idm && tex2 == tex),
        Ctor::EncloseFunctionApplication(idm, tex) => (
        node matches OutInternal::EncloseFunctionApplication(t, p, a, idm2, tex2) && idm2 == idm
            && tex2 == tex),
        Ctor::MathGroupingParens => node matches OutInternal::MathGroupingParens(t, p, a),
    }
}

/// Parses one macro invocation after its bareword: the optional parameter
/// literal, then the argument groups, and builds the node the bareword's
/// table entry describes: on success, the entry's own node variant with
/// the entry's constant material. A present parameter literal that does
/// not decode against the declared shape is exactly the parameter error
/// spanning the invocation so far.
fn parse_macro(
    s: &str,
    pos: usize,
    off: usize,
    ctor: Ctor,
    parse_parameters: bool,
    trace_start: usize,
) -> (r: Result<(OutInternal, usize), ParseError>)
    requires
        pos <= s@.len(),
        off + s@.len() < usize::MAX,
        trace_start <= off + s@.len(),
    ensures
        (r matches Ok(p) ==> pos <= p.1 <= s@.len()),
        (r matches Ok(p) ==> node_of_ctor(p.0, ctor)),
        (parse_parameters && spec_params_fail(ctor, s@, pos as int) ==> r == Result::<
            (OutInternal, usize),
            ParseError,
        >::Err(
            ParseError::Parameters(
                Trace(Some(crate::trace::Span { start: trace_start, end: (off + pos) as usize })),
            ),
        )),
    decreases s@.len() - pos, 1int,
{
    let perr = ParseError::Parameters(Trace::span(trace_start, off + pos));
    match ctor {
        Ctor::EmptyMacro => {
            let (p2, _unit) = parse_unit_params(s, pos, parse_parameters, perr)?;
            let (args, p3) = parse_args(s, p2, off)?;
            Ok((OutInternal::EmptyMacro(Trace::span(trace_start, off + p3), args), p3))
        },
        Ctor::P => {
            let (p2, _unit) = parse_unit_params(s, pos, parse_parameters, perr)?;
            let (args, p3) = parse_args(s, p2, off)?;
            Ok((OutInternal::P(Trace::span(trace_start, off + p3), args), p3))
        },
        Ctor::Template => {
            let (p2, _unit) = parse_unit_params(s, pos, parse_parameters, perr)?;
            let (args, p3) = parse_args(s, p2, off)?;
            Ok((
                OutInternal::Template(
                    Trace::span(trace_start, off + p3),
                    crate::params::Template,
                    args,
                ),
                p3,
            ))
        },
        Ctor::Cref => {
            let (p2, _unit) = parse_unit_params(s, pos, parse_parameters, perr)?;
            let (args, p3) = parse_args(s, p2, off)?;
            Ok((OutInternal::Cref(Trace::span(trace_start, off + p3), args), p3))
        },
        Ctor::Cases => {
            let (p2, _unit) = parse_unit_params(s, pos, parse_parameters, perr)?;
            let (args, p3) = parse_args(s, p2, off)?;
            Ok((OutInternal::Cases(Trace::span(trace_start, off + p3), args), p3))
        },
        Ctor::ChapterNav => {
            let (p2, _unit) = parse_unit_params(s, pos, parse_parameters, perr)?;
            let (args, p3) = parse_args(s, p2, off)?;
            Ok((OutInternal::ChapterNav(Trace::span(trace_start, off + p3), args), p3))
        },
        Ctor::TeX(display) => {
            let (p2, _unit) = parse_unit_params(s, pos, parse_parameters, perr)?;
            let (args, p3) = parse_args(s, p2, off)?;
            Ok((OutInternal::TeX(Trace::span(trace_start, off + p3), args, display), p3))
        },
        Ctor::Fleqn => {
            let (p2, _unit) = parse_unit_params(s, pos, parse_parameters, perr)?;
            let (args, p3) = parse_args(s, p2, off)?;
            Ok((OutInternal::Fleqn(Trace::span(trace_start, off + p3), args), p3))
        },
        Ctor::Cwd => {
            let (p2, _unit) = parse_unit_params(s, pos, parse_parameters, perr)?;
            let (args, p3) = parse_args(s, p2, off)?;
            Ok((OutInternal::Cwd(Trace::span(trace_start, off + p3), args), p3))
        },
        Ctor::DropContent => {
            let (p2, _unit) = parse_unit_params(s, pos, parse_parameters, perr)?;
            let (args, p3) = parse_args(s, p2, off)?;
            Ok((OutInternal::Drop(Trace::span(trace_start, off + p3), args), p3))
        },
        Ctor::ProofPart => {
            let (p2, _unit) = parse_unit_params(s, pos, parse_parameters, perr)?;
            let (args, p3) = parse_args(s, p2, off)?;
            Ok((OutInternal::ProofPart(Trace::span(trace_start, off + p3), args), p3))
        },
        Ctor::Link => {
            let (p2, _unit) = parse_unit_params(s, pos, parse_parameters, perr)?;
            let (args, p3) = parse_args(s, p2, off)?;
            Ok((OutInternal::Link(Trace::span(trace_start, off + p3), args), p3))
        },
        Ctor::Captioned => {
            let (p2, _unit) = parse_unit_params(s, pos, parse_parameters, perr)?;
            let (args, p3) = parse_args(s, p2, off)?;
            Ok((OutInternal::Captioned(Trace::span(trace_start, off + p3), args), p3))
        },
        Ctor::Const(body) => {
            let (p2, _unit) = parse_unit_params(s, pos, parse_parameters, perr)?;
            let (args, p3) = parse_args(s, p2, off)?;
            Ok((OutInternal::Const(Trace::span(trace_start, off + p3), args, body), p3))
        },
        Ctor::ReferenceDefined(capitalize, pluralize, fakedef) => {
            let (p2, _unit) = parse_unit_params(s, pos, parse_parameters, perr)?;
            let (args, p3) = parse_args(s, p2, off)?;
            Ok((
                OutInternal::ReferenceDefined(
                    Trace::span(trace_start, off + p3),
                    args,
                    capitalize,
                    pluralize,
                    fakedef,
                ),
                p3,
            ))
        },
        Ctor::Enclose(pre, post) => {
            let (p2, _unit) = parse_unit_params(s, pos, parse_parameters, perr)?;
            let (args, p3) = parse_args(s, p2, off)?;
            Ok((
                OutInternal::Enclose(Trace::span(trace_start, off + p3), args, pre, post),
                p3,
            ))
        },
        Ctor::Enclose2(pre, mid, post) => {
            let (p2, _unit) = parse_unit_params(s, pos, parse_parameters, perr)?;
            let (args, p3) = parse_args(s, p2, off)?;
            Ok((
                OutInternal::Enclose2(Trace::span(trace_start, off + p3), args, pre, mid, post),
                p3,
            ))
        },
        Ctor::MathEnv(env) => {
            let (p2, _unit) = parse_unit_params(s, pos, parse_parameters, perr)?;
            let (args, p3) = parse_args(s, p2, off)?;
            Ok((OutInternal::MathEnv(Trace::span(trace_start, off + p3), args, env), p3))
        },
        Ctor::HtmlTag(tag) => {
            let (p2, tag_params) = if parse_parameters {
                match params::str_map(s, pos) {
                    None => {
                        return Err(perr);
                    },
                    Some((v, p2)) => (p2, v),
                }
            } else {
                (pos, Vec::new())
            };
            let (args, p3) = parse_args(s, p2, off)?;
            Ok((
                OutInternal::HtmlTag(Trace::span(trace_start, off + p3), tag, tag_params, args),
                p3,
            ))
        },
        Ctor::Input => {
            let (p2, path) = parse_one_string_params(s, pos, parse_parameters, perr)?;
            let (args, p3) = parse_args(s, p2, off)?;
            Ok((OutInternal::Input(Trace::span(trace_start, off + p3), path, args), p3))
        },
        Ctor::Output(tee) => {
            let (p2, path) = parse_one_string_params(s, pos, parse_parameters, perr)?;
            let (args, p3) = parse_args(s, p2, off)?;
            Ok((OutInternal::Output(Trace::span(trace_start, off + p3), path, args, tee), p3))
        },
        Ctor::CopyAll => {
            let (p2, a, b) = parse_two_string_params(s, pos, parse_parameters, perr)?;
            let (args, p3) = parse_args(s, p2, off)?;
            Ok((OutInternal::CopyAll(Trace::span(trace_start, off + p3), a, b, args), p3))
        },
        Ctor::HSection(no_numbering) => {
            let (p2, id) = parse_one_string_params(s, pos, parse_parameters, perr)?;
            let (args, p3) = parse_args(s, p2, off)?;
            Ok((
                OutInternal::HSection(
                    Trace::span(trace_start, off + p3),
                    crate::params::HSection(id),
                    args,
                    no_numbering,
                ),
                p3,
            ))
        },
        Ctor::CaseOf => {
            let (p2, id) = parse_one_string_params(s, pos, parse_parameters, perr)?;
            let (args, p3) = parse_args(s, p2, off)?;
            Ok((
                OutInternal::Case(
                    Trace::span(trace_start, off + p3),
                    crate::params::Case(id),
                    args,
                ),
                p3,
            ))
        },
        Ctor::Toggled(invisible, visible) => {
            let (p2, id) = parse_one_string_params(s, pos, parse_parameters, perr)?;
            let (args, p3) = parse_args(s, p2, off)?;
            Ok((
                OutInternal::Toggled(
                    Trace::span(trace_start, off + p3),
                    crate::params::Toggled(id),
                    args,
                    invisible,
                    visible,
                ),
                p3,
            ))
        },
        Ctor::SetDomain => {
            let (p2, dom) = if parse_parameters {
                match params::bare_string(s, pos) {
                    None => {
                        return Err(perr);
                    },
                    Some((v, p2)) => (p2, v),
                }
            } else {
                (pos, String::new())
            };
            let (args, p3) = parse_args(s, p2, off)?;
            Ok((OutInternal::SetDomain(Trace::span(trace_start, off + p3), dom, args), p3))
        },
        Ctor::SetMathId => {
            let (p2, a, b) = parse_two_string_params(s, pos, parse_parameters, perr)?;
            let (args, p3) = parse_args(s, p2, off)?;
            Ok((
                OutInternal::SetMathId(
                    Trace::span(trace_start, off + p3),
                    crate::params::SetMathId(a, b),
                    args,
                ),
                p3,
            ))
        },
        Ctor::BoxOf(kind, name) => {
            let (p2, v) = parse_string_vec_params(s, pos, parse_parameters, true, perr)?;
            let (args, p3) = parse_args(s, p2, off)?;
            Ok((
                OutInternal::Box(
                    Trace::span(trace_start, off + p3),
                    crate::params::BoxParams(v),
                    args,
                    kind,
                    name,
                ),
                p3,
            ))
        },
        Ctor::Fact(name, no_numbering) => {
            let (p2, v) = parse_string_vec_params(s, pos, parse_parameters, true, perr)?;
            let (args, p3) = parse_args(s, p2, off)?;
            Ok((
                OutInternal::Fact(
                    Trace::span(trace_start, off + p3),
                    crate::params::BoxParams(v),
                    args,
                    name,
                    no_numbering,
                ),
                p3,
            ))
        },
        Ctor::ProofBox => {
            let (p2, v) = parse_string_vec_params(s, pos, parse_parameters, false, perr)?;
            let (args, p3) = parse_args(s, p2, off)?;
            Ok((
                OutInternal::Proof(
                    Trace::span(trace_start, off + p3),
                    crate::params::Proof(v),
                    args,
                ),
                p3,
            ))
        },
        Ctor::Define(custom_text) => {
            let (p2, v) = parse_string_vec_params(s, pos, parse_parameters, true, perr)?;
            let (args, p3) = parse_args(s, p2, off)?;
            Ok((
                OutInternal::Define(
                    Trace::span(trace_start, off + p3),
                    crate::params::Define(v),
                    args,
                    custom_text,
                ),
                p3,
            ))
        },
        Ctor::MathSet => {
            let (p2, v) = parse_u8_params(s, pos, parse_parameters, perr)?;
            let (args, p3) = parse_args(s, p2, off)?;
            Ok((
                OutInternal::MathSet(
                    Trace::span(trace_start, off + p3),
                    crate::params::MathSet(v),
                    args,
                ),
                p3,
            ))
        },
        Ctor::MathSetBuilder => {
            let (p2, v) = parse_u8_params(s, pos, parse_parameters, perr)?;
            let (args, p3) = parse_args(s, p2, off)?;
            Ok((
                OutInternal::MathSetBuilder(
                    Trace::span(trace_start, off + p3),
                    crate::params::MathSetBuilder(v),
                    args,
                ),
                p3,
            ))
        },
        Ctor::MathGroupingParens => {
            let (p2, v) = parse_u8_params(s, pos, parse_parameters, perr)?;
            let (args, p3) = parse_args(s, p2, off)?;
            Ok((
                OutInternal::MathGroupingParens(
                    Trace::span(trace_start, off + p3),
                    crate::params::MathSet(v),
                    args,
                ),
                p3,
            ))
        },
        Ctor::EncloseFunctionApplication(id, tex) => {
            let (p2, v) = parse_u8_params(s, pos, parse_parameters, perr)?;
            let (args, p3) = parse_args(s, p2, off)?;
            Ok((
                OutInternal::EncloseFunctionApplication(
                    Trace::span(trace_start, off + p3),
                    crate::params::MathSet(v),
                    args,
                    id,
                    tex,
                ),
                p3,
            ))
        },
        Ctor::MathMacro(id, tex) => {
            let (p2, v) = if parse_parameters {
                match params::bool_array1(s, pos) {
                    None => {
                        return Err(perr);
                    },
                    Some((v, p2)) => (p2, v),
                }
            } else {
                (pos, false)
            };
            let (args, p3) = parse_args(s, p2, off)?;
            Ok((
                OutInternal::MathMacro(
                    Trace::span(trace_start, off + p3),
                    crate::params::MathMacro(v),
                    args,
                    id,
                    tex,
                ),
                p3,
            ))
        },
    }
}

/// A unit parameter shape: a bracket block, when present, must hold the
/// literal `nil` after whitespace; anything else is a parameter error.
fn parse_unit_params(s: &str, pos: usize, parse_parameters: bool, perr: ParseError) -> (r: Result<
    (usize, ()),
    ParseError,
>)
    requires
        pos <= s@.len(),
    ensures
        (r matches Ok(p) ==> pos <= p.0 <= s@.len()),
        (!parse_parameters ==> (r matches Ok(p) && p.0 == pos)),
        (parse_parameters && params::spec_nil_lit(
            s@,
            params::spec_skip_ws(s@, pos as int, false),
        ) is None ==> r == Result::<(usize, ()), ParseError>::Err(perr)),
        (parse_parameters ==> (r is Err <==> params::spec_nil_lit(
            s@,
            params::spec_skip_ws(s@, pos as int, false),
        ) is None)),
{
    if parse_parameters {
        let j = params::skip_ws(s, pos);
        match params::nil_lit(s, j) {
            None => Err(perr),
            Some(p2) => Ok((p2, ())),
        }
    } else {
        Ok((pos, ()))
    }
}

/// A one-string parameter shape: an array of exactly one string, decoded
/// against the literal grammar, or the empty string when no bracket block
/// is given; any other shape is the given parameter error.
fn parse_one_string_params(s: &str, pos: usize, parse_parameters: bool, perr: ParseError) -> (r:
    Result<(usize, String), ParseError>)
    requires
        pos <= s@.len(),
    ensures
        (r matches Ok(p) ==> pos <= p.0 <= s@.len()),
        (!parse_parameters ==> (r matches Ok(p) && p.0 == pos && p.1@ == Seq::<char>::empty())),
        (parse_parameters && params::spec_str_array(s@, pos as int) is None ==> r == Result::<
            (usize, String),
            ParseError,
        >::Err(perr)),
        (parse_parameters ==> (params::spec_str_array(s@, pos as int) matches Some(d) ==> (
        if d.0.len() == 1 {
            r matches Ok(p) && p.0 == d.1 && p.1@ == d.0[0]
        } else {
            r == Result::<(usize, String), ParseError>::Err(perr)
        }))),
{
    if parse_parameters {
        match params::str_array(s, pos) {
            None => Err(perr),
            Some((v, p2)) => {
                if v.len() == 1 {
                    let mut v = v;
                    match v.pop() {
                        Some(x) => Ok((p2, x)),
                        None => Err(perr),
                    }
                } else {
                    Err(perr)
                }
            },
        }
    } else {
        Ok((pos, String::new()))
    }
}

/// A two-string parameter shape: an array of exactly two strings, or two
/// empty strings when no bracket block is given; any other shape is the
/// given parameter error.
fn parse_two_string_params(s: &str, pos: usize, parse_parameters: bool, perr: ParseError) -> (r:
    Result<(usize, String, String), ParseError>)
    requires
        pos <= s@.len(),
    ensures
        (r matches Ok(p) ==> pos <= p.0 <= s@.len()),
        (!parse_parameters ==> (r matches Ok(p) && p.0 == pos && p.1@ == Seq::<char>::empty()
            && p.2@ == Seq::<char>::empty())),
        (parse_parameters && params::spec_str_array(s@, pos as int) is None ==> r == Result::<
            (usize, String, String),
            ParseError,
        >::Err(perr)),
        (parse_parameters ==> (params::spec_str_array(s@, pos as int) matches Some(d) ==> (
        if d.0.len() == 2 {
            r matches Ok(p) && p.0 == d.1 && p.1@ == d.0[0] && p.2@ == d.0[1]
        } else {
            r == Result::<(usize, String, String), ParseError>::Err(perr)
        }))),
{
    if parse_parameters {
        match params::str_array(s, pos) {
            None => Err(perr),
            Some((v, p2)) => {
                if v.len() == 2 {
                    let mut v = v;
                    match v.pop() {
                        Some(b) => match v.pop() {
                            Some(a) => Ok((p2, a, b)),
                            None => Err(perr),
                        },
                        None => Err(perr),
                    }
                } else {
                    Err(perr)
                }
            },
        }
    } else {
        Ok((pos, String::new(), String::new()))
    }
}

/// A string-list parameter shape: an array of any number of strings. When
/// no bracket block is given, the default is one empty string for the
/// shapes whose first entry is an id, or no strings at all.
fn parse_string_vec_params(
    s: &str,
    pos: usize,
    parse_parameters: bool,
    default_one_empty: bool,
    perr: ParseError,
) -> (r: Result<(usize, Vec<String>), ParseError>)
    requires
        pos <= s@.len(),
    ensures
        (r matches Ok(p) ==> pos <= p.0 <= s@.len()),
        (!parse_parameters ==> (r matches Ok(p) && p.0 == pos && p.1@.len() == (
        if default_one_empty {
            1int
        } else {
            0int
        }) && (default_one_empty ==> p.1@[0]@ == Seq::<char>::empty()))),
        (parse_parameters && params::spec_str_array(s@, pos as int) is None ==> r == Result::<
            (usize, Vec<String>),
            ParseError,
        >::Err(perr)),
        (parse_parameters ==> (params::spec_str_array(s@, pos as int) matches Some(d) ==> (
        r matches Ok(p) && p.0 == d.1 && p.1.deep_view() == d.0))),
{
    if parse_parameters {
        match params::str_array(s, pos) {
            None => Err(perr),
            Some((v, p2)) => Ok((p2, v)),
        }
    } else {
        let mut v: Vec<String> = Vec::new();
        if default_one_empty {
            v.push(String::new());
        }
        Ok((pos, v))
    }
}

/// A small-integer parameter shape: an array of exactly one integer between
/// 0 and 255, or the automatic sizing level 99 when no bracket block is
/// given.
fn parse_u8_params(s: &str, pos: usize, parse_parameters: bool, perr: ParseError) -> (r: Result<
    (usize, u8),
    ParseError,
>)
    requires
        pos <= s@.len(),
    ensures
        (r matches Ok(p) ==> pos <= p.0 <= s@.len()),
        (!parse_parameters ==> (r matches Ok(p) && p.0 == pos && p.1 == 99)),
        (parse_parameters && params::spec_u8_array1(s@, pos as int) is None ==> r == Result::<
            (usize, u8),
            ParseError,
        >::Err(perr)),
        (parse_parameters ==> (params::spec_u8_array1(s@, pos as int) matches Some(d) ==> (
        r matches Ok(p) && p.0 == d.1 && p.1 == d.0))),
{
    if parse_parameters {
        match params::u8_array1(s, pos) {
            None => Err(perr),
            Some((v, p2)) => Ok((p2, v)),
        }
    } else {
        Ok((pos, 99))
    }
}

/// Parses a whole file's text into one call tree at global offset `off`.
/// A file in the literal regime — text, escapes and comments only — parses
/// to a tree of literal runs scanning exactly to `spec_literal`: `\u{a7}\u{a7}`
/// to the literal sigil, sigil + parenthesis to that literal parenthesis,
/// and a sigil + `#` comment to nothing; contiguous text coalesces into
/// one run per stretch, and a fragment without any sigil is one single
/// text node. A file whose first bareword is off the dispatch table fails
/// with an unknown-macro-name error.
pub fn parse(s: &str, off: usize) -> (r: Result<OutInternal, ParseError>)
    requires
        off + s@.len() < usize::MAX,
    ensures
        (spec_literal(s@, 0) matches Some(c) ==> (r matches Ok(node) && flat_text(node) == Some(
            c,
        ))),
        (spec_literal(s@, 0) matches Some(c) ==> (no_sigil_after(s@, 0) ==> (r matches Ok(node)
            && node matches OutInternal::Text(tt, tr) && tt@ == c))),
        (spec_first_bareword(s@, 0) matches Some(w) ==> (spec_dispatch(w) is None ==> (
        r matches Err(e) && e matches ParseError::UnknownMacroName(tr)))),
{
    match parse_content(s, 0, off) {
        Ok((node, _)) => Ok(node),
        Err(e) => Err(e),
    }
}

} // verus!
