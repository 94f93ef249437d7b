//! The expansion interpreter: reduces a bound call tree to one flat text,
//! mutating the document state as macros prescribe. Evaluation is strictly
//! depth-first, left to right, and all side effects happen in that order.
//! Any error aborts the whole expansion at once.
//!
//! The interpreter performs no I/O. Input files are looked up in the file
//! set handed to the run; every write becomes an entry in the output log,
//! and the log only ever grows during the second pass, so a failed run, or
//! a first pass, leaves nothing to write.
use vstd::prelude::*;
use vstd::string::StrSliceExecFns;
use crate::ast::{Out, OutInternal, out_to_internal, text_run, texts_concat, flat_text,
    lemma_texts_concat_index};
use crate::errors::ExpansionError;
use ropey::Rope;
use crate::rope::{rope_text, rope_new, rope_from_str, rope_append, rope_push_str,
    rope_push_string, rope_to_string, rope_clone};
use crate::state::{State, BoxKind, CrefKind, HSectionInfo, BoxInfo};
use crate::strmap::StrMap;
use crate::text;
use crate::trace::Trace;

verus! {

/// One file the run will write: its path and its content.
pub struct OutFile {
    pub path: String,
    pub content: String,
}

/// One recursive copy the run will perform: source and target paths.
pub struct CopyItem {
    pub from: String,
    pub to: String,
}

/// Everything a pass works on: the document state, the input file set, the
/// write and copy logs, and the length of the shared source coordinate
/// space consumed so far.
pub struct Yatt {
    pub state: State,
    pub files: StrMap<String>,
    pub outputs: Vec<OutFile>,
    pub copies: Vec<CopyItem>,
    pub source_len: usize,
}

/// What every expansion step preserves: the pass indicator, the entrypoint
/// and the input file set are fixed; the write and copy logs only grow, and
/// not at all during the first pass.
pub open spec fn frame(a: Yatt, b: Yatt) -> bool {
    &&& b.state.wf()
    &&& b.state.second_iteration == a.state.second_iteration
    &&& b.state.entrypoint == a.state.entrypoint
    &&& b.files == a.files
    &&& (!a.state.second_iteration ==> b.outputs@ == a.outputs@)
    &&& a.outputs@.len() <= b.outputs@.len()
    &&& forall|i: int| 0 <= i < a.outputs@.len() ==> b.outputs@[i] == #[trigger] a.outputs@[i]
    &&& (!a.state.second_iteration ==> b.copies@ == a.copies@)
    &&& a.copies@.len() <= b.copies@.len()
    &&& forall|i: int| 0 <= i < a.copies@.len() ==> b.copies@[i] == #[trigger] a.copies@[i]
}

/// What every macro restores on every exit path: the current file and
/// output, the section nesting depth, the math-mode and fleqn flags, and
/// the depth of the case stack.
pub open spec fn restored(a: Yatt, b: Yatt) -> bool {
    &&& b.state.current_file == a.state.current_file
    &&& b.state.current_output == a.state.current_output
    &&& b.state.hsection_level == a.state.hsection_level
    &&& b.state.mathmode == a.state.mathmode
    &&& b.state.fleqn == a.state.fleqn
    &&& b.state.cases@.len() == a.state.cases@.len()
    &&& b.state.sticky_state.hsections_structure.path()
        == a.state.sticky_state.hsections_structure.path()
    &&& forall|i: int|
        0 <= i <= a.state.hsection_level ==> b.state.hsection_current_count@[i]
            == a.state.hsection_current_count@[i]
}

/// `frame` and `restored` compose across consecutive steps.
pub proof fn lemma_frame_trans(a: Yatt, b: Yatt, c: Yatt)
    requires
        frame(a, b),
        frame(b, c),
        restored(a, b),
        restored(b, c),
    ensures
        frame(a, c),
        restored(a, c),
{
}

/// Demands exactly `n` arguments: any other count is an argument-count
/// error at the invocation's span.
pub fn arguments_exact(n: usize, args_len: usize, span: Trace) -> (r: Result<(), ExpansionError>)
    ensures
        args_len == n ==> r == Result::<(), ExpansionError>::Ok(()),
        args_len != n ==> r == Result::<(), ExpansionError>::Err(
            ExpansionError::ArgumentNumber(args_len, span),
        ),
{
    if args_len != n {
        Err(ExpansionError::ArgumentNumber(args_len, span))
    } else {
        Ok(())
    }
}

/// Demands fewer than `n` arguments.
pub fn arguments_lt(n: usize, args_len: usize, span: Trace) -> (r: Result<(), ExpansionError>)
    ensures
        args_len < n ==> r == Result::<(), ExpansionError>::Ok(()),
        args_len >= n ==> r == Result::<(), ExpansionError>::Err(
            ExpansionError::ArgumentNumber(args_len, span),
        ),
{
    if args_len >= n {
        Err(ExpansionError::ArgumentNumber(args_len, span))
    } else {
        Ok(())
    }
}

/// Demands at least `n` arguments.
pub fn arguments_gte(n: usize, args_len: usize, span: Trace) -> (r: Result<(), ExpansionError>)
    ensures
        args_len >= n ==> r == Result::<(), ExpansionError>::Ok(()),
        args_len < n ==> r == Result::<(), ExpansionError>::Err(
            ExpansionError::ArgumentNumber(args_len, span),
        ),
{
    if args_len < n {
        Err(ExpansionError::ArgumentNumber(args_len, span))
    } else {
        Ok(())
    }
}

/// The TeX sizing commands for a delimiter sizing level: 99 sizes
/// automatically, 0 not at all, 1 to 4 pick the fixed sizes; any other
/// level sizes like 0.
pub fn sizing_level(level: u8) -> (r: (String, String))
    ensures
        level == 99 ==> r.0@ == "\\left"@ && r.1@ == "\\right"@,
        level == 0 ==> r.0@ == Seq::<char>::empty() && r.1@ == Seq::<char>::empty(),
        level == 1 ==> r.0@ == "\\big"@ && r.1@ == "\\big"@,
        level == 2 ==> r.0@ == "\\Big"@ && r.1@ == "\\Big"@,
        level == 3 ==> r.0@ == "\\bigg"@ && r.1@ == "\\bigg"@,
        level == 4 ==> r.0@ == "\\Bigg"@ && r.1@ == "\\Bigg"@,
{
    if level == 99 {
        ("\\left".to_owned(), "\\right".to_owned())
    } else if level == 1 {
        ("\\big".to_owned(), "\\big".to_owned())
    } else if level == 2 {
        ("\\Big".to_owned(), "\\Big".to_owned())
    } else if level == 3 {
        ("\\bigg".to_owned(), "\\bigg".to_owned())
    } else if level == 4 {
        ("\\Bigg".to_owned(), "\\Bigg".to_owned())
    } else {
        (String::new(), String::new())
    }
}


/// Replaces position `i` of a counter vector.
fn vec_set_usize(v: &mut Vec<usize>, i: usize, val: usize)
    requires
        i < old(v)@.len(),
    ensures
        final(v)@ == old(v)@.update(i as int, val),
{
    let slot = vstd::std_specs::vec::vec_index_mut(v, i);
    *slot = val;
}

/// Whether some entry of `v` holds the characters `t`.
pub open spec fn has_str(v: Seq<String>, t: Seq<char>) -> bool {
    exists|i: int| 0 <= i < v.len() && #[trigger] v[i]@ == t
}

/// Appends `s` to a pending-preview list unless an entry with its
/// characters is already there, keeping the list duplicate-free.
fn push_unique(v: &mut Vec<String>, s: String)
    ensures
        has_str(old(v)@, s@) ==> final(v)@ == old(v)@,
        !has_str(old(v)@, s@) ==> final(v)@ == old(v)@.push(s),
        has_str(final(v)@, s@),
{
    let n = v.len();
    let mut i: usize = 0;
    while i < n
        invariant
            i <= n,
            n == v@.len(),
            v == old(v),
            forall|j: int| 0 <= j < i ==> #[trigger] v@[j]@ != s@,
        decreases n - i,
    {
        if crate::text::str_eq(v[i].as_str(), s.as_str()) {
            return ;
        }
        i = i + 1;
    }
    v.push(s);
    proof {
        assert(final(v)@[old(v)@.len() as int]@ == s@);
    }
}

/// The numbering of a case: the case counters from `i` on, dot-joined.
pub open spec fn spec_case_numbering(c: Seq<usize>, i: int) -> Seq<char>
    decreases c.len() - i,
{
    if i < 0 || i >= c.len() {
        Seq::empty()
    } else {
        (if i != 0 {
            seq!['.']
        } else {
            Seq::<char>::empty()
        }) + crate::text::spec_decimal(c[i] as nat) + spec_case_numbering(c, i + 1)
    }
}

fn case_numbering_from(c: &Vec<usize>, i: usize) -> (r: String)
    requires
        i <= c@.len(),
    ensures
        r@ == spec_case_numbering(c@, i as int),
    decreases c@.len() - i,
{
    if i >= c.len() {
        String::new()
    } else {
        let rest = case_numbering_from(c, i + 1);
        let mut out = String::new();
        if i != 0 {
            crate::text::push_str(&mut out, ".");
            proof {
                reveal_strlit(".");
            }
        }
        let num = crate::text::decimal_string(c[i]);
        crate::text::push_string(&mut out, &num);
        crate::text::push_string(&mut out, &rest);
        assert(out@ =~= spec_case_numbering(c@, i as int));
        out
    }
}

/// Composes a case marker's numbering from the case stack.
pub fn case_numbering(c: &Vec<usize>) -> (r: String)
    ensures
        r@ == spec_case_numbering(c@, 0),
{
    case_numbering_from(c, 0)
}

/// The material put before a rendered section number at each level.
fn hsection_pre_number(level: usize) -> (r: &'static str) {
    if level == 1 {
        "<div>Chapter "
    } else {
        ""
    }
}

/// The material put after a rendered section number at each level.
fn hsection_post_number(level: usize) -> (r: &'static str) {
    if level == 1 {
        "</div>"
    } else if level >= 2 {
        ": "
    } else {
        ""
    }
}

/// Whether a level's headings render their number.
fn hsection_render_number(level: usize) -> (r: bool)
    ensures
        r == (level == 1 || level == 2),
{
    level == 1 || level == 2
}

/// The label of a heading at each level.
fn hsection_name(level: usize) -> (r: &'static str) {
    if level == 1 {
        "Chapter"
    } else if level == 2 {
        "Section"
    } else if level == 3 {
        "Subsection"
    } else if level == 4 {
        "Subsubsection"
    } else if level == 5 {
        "Subsubsubsection"
    } else {
        ""
    }
}

/// The path a preview snippet is written under: the build directory's
/// previews folder, keyed by the id.
pub open spec fn spec_preview_path(st: State, id: Seq<char>) -> Seq<char> {
    crate::text::spec_parent(st.entrypoint@) + "/build/previews/"@ + id + ".html"@
}

/// The path a preview snippet is written under.
fn preview_path(state: &State, id: &str) -> (r: String)
    ensures
        r@ == spec_preview_path(*state, id@),
{
    let base = state.base_dir();
    let mut p = base;
    crate::text::push_str(&mut p, "/build/previews/");
    crate::text::push_str(&mut p, id);
    crate::text::push_str(&mut p, ".html");
    proof {
        assert(p@ =~= spec_preview_path(*state, id@));
    }
    p
}

/// Logs one preview snippet for `id`; only the second pass writes, and
/// then exactly one entry under the id's preview path.
fn create_preview(y: &mut Yatt, id: &str, content: &str)
    requires
        old(y).state.wf(),
    ensures
        frame(*old(y), *final(y)),
        restored(*old(y), *final(y)),
        final(y).state == old(y).state,
        final(y).source_len == old(y).source_len,
        final(y).copies == old(y).copies,
        (!old(y).state.second_iteration ==> final(y).outputs == old(y).outputs),
        (old(y).state.second_iteration ==> final(y).outputs@ == old(y).outputs@.push(
            final(y).outputs@.last(),
        ) && final(y).outputs@.last().path@ == spec_preview_path(old(y).state, id@) && final(y).outputs@.last().content@ == content@),
{
    if y.state.second_iteration {
        let p = preview_path(&y.state, id);
        let f = OutFile { path: p, content: content.to_owned() };
        let ghost pre = y.outputs@;
        y.outputs.push(f);
        proof {
            assert(pre =~= y.outputs@.subrange(0, pre.len() as int));
            assert(y.outputs@ =~= pre.push(y.outputs@.last()));
        }
    }
}

/// Writes the pending box previews, one entry per pending id in order,
/// each under that id's preview path, and clears the pending set; only the
/// second pass writes, but the set always empties.
#[verifier::loop_isolation(false)]
fn create_box_previews(y: &mut Yatt, content: &str)
    requires
        old(y).state.wf(),
    ensures
        frame(*old(y), *final(y)),
        restored(*old(y), *final(y)),
        final(y).state.box_previews@.len() == 0,
        final(y).state == (State { box_previews: final(y).state.box_previews, ..old(y).state }),
        final(y).source_len == old(y).source_len,
        (!old(y).state.second_iteration ==> final(y).outputs == old(y).outputs),
        (old(y).state.second_iteration ==> {
            &&& final(y).outputs@.len() == old(y).outputs@.len() + old(y).state.box_previews@.len()
            &&& forall|j: int|
                0 <= j < old(y).state.box_previews@.len() ==> (#[trigger] final(y).outputs@[old(y).outputs@.len() + j]).path@ == spec_preview_path(
                    old(y).state,
                    old(y).state.box_previews@[j]@,
                ) && final(y).outputs@[old(y).outputs@.len() + j].content@ == content@
        }),
{
    let mut pending: Vec<String> = Vec::new();
    core::mem::swap(&mut pending, &mut y.state.box_previews);
    let ghost y0 = *y;
    let ghost pending0 = pending@;
    let mut rem = pending;
    loop
        invariant
            y.state.wf(),
            frame(y0, *y),
            restored(y0, *y),
            y.state == y0.state,
            y.source_len == y0.source_len,
            y.copies == y0.copies,
            rem@.len() <= pending0.len(),
            rem@ =~= pending0.subrange(pending0.len() - rem@.len(), pending0.len() as int),
            (!y0.state.second_iteration ==> y.outputs == y0.outputs),
            (y0.state.second_iteration ==> {
                &&& y.outputs@.len() == y0.outputs@.len() + pending0.len() - rem@.len()
                &&& forall|j: int|
                    0 <= j < pending0.len() - rem@.len() ==> (#[trigger] y.outputs@[y0.outputs@.len()
                        + j]).path@ == spec_preview_path(y0.state, pending0[j]@)
                        && y.outputs@[y0.outputs@.len() + j].content@ == content@
            }),
        decreases rem@.len(),
    {
        if rem.len() == 0 {
            break;
        }
        let ghost k = pending0.len() - rem@.len();
        let id = rem.remove(0);
        proof {
            assert(id == pending0[k]);
        }
        let ghost y_before = *y;
        create_preview(y, id.as_str(), content);
        proof {
            lemma_frame_trans(y0, y_before, *y);
            assert(rem@ =~= pending0.subrange(pending0.len() - rem@.len(), pending0.len() as int));
        }
    }
}

/// Writes the pending boxless previews, as the box previews.
fn create_boxless_previews(y: &mut Yatt, content: &str)
    requires
        old(y).state.wf(),
    ensures
        frame(*old(y), *final(y)),
        restored(*old(y), *final(y)),
        final(y).state.boxless_previews@.len() == 0,
        final(y).state == (State {
            boxless_previews: final(y).state.boxless_previews,
            ..old(y).state
        }),
        final(y).source_len == old(y).source_len,
{
    let mut pending: Vec<String> = Vec::new();
    core::mem::swap(&mut pending, &mut y.state.boxless_previews);
    let ghost y0 = *y;
    let mut rem = pending;
    loop
        invariant
            y.state.wf(),
            frame(y0, *y),
            restored(y0, *y),
            y.state == y0.state,
            y.source_len == y0.source_len,
        decreases rem@.len(),
    {
        if rem.len() == 0 {
            break;
        }
        let id = rem.remove(0);
        let ghost y_before = *y;
        create_preview(y, id.as_str(), content);
        proof {
            lemma_frame_trans(y0, y_before, *y);
        }
    }
}
/// Expands the argument subtrees left to right, collecting their texts.
/// A fully literal argument list expands to its own runs, one rope per
/// argument, touching nothing.
#[verifier::loop_isolation(false)]
fn expand_seq(args: Vec<OutInternal>, y: &mut Yatt, fuel: u64) -> (r: Result<
    Vec<Rope>,
    ExpansionError,
>)
    requires
        old(y).state.wf(),
    ensures
        frame(*old(y), *final(y)),
        restored(*old(y), *final(y)),
        (r matches Ok(ropes) ==> ropes@.len() == args@.len()),
        (texts_concat(args@, 0) is Some && fuel >= 1 ==> *final(y) == *old(y) && (r matches Ok(
            ropes,
        ) && forall|i: int|
            0 <= i < args@.len() ==> text_run(args@[i]) == Some(
                rope_text(#[trigger] ropes@[i]),
            ))),
    decreases fuel, 0int,
{
    let ghost y0 = *y;
    let ghost args_snap = args;
    let ghost lit = texts_concat(args@, 0) is Some && fuel >= 1;
    let mut rem = args;
    let mut ropes: Vec<Rope> = Vec::new();
    loop
        invariant
            y0 == *old(y),
            args_snap@.len() == ropes@.len() + rem@.len(),
            rem@ =~= args_snap@.subrange(ropes@.len() as int, args_snap@.len() as int),
            y.state.wf(),
            frame(y0, *y),
            restored(y0, *y),
            lit ==> *y == y0,
            lit ==> forall|i: int|
                0 <= i < ropes@.len() ==> text_run(args_snap@[i]) == Some(
                    rope_text(#[trigger] ropes@[i]),
                ),
        decreases rem@.len(),
    {
        if rem.len() == 0 {
            break;
        }
        if fuel == 0 {
            return Err(ExpansionError::TooDeep(Trace::none()));
        }
        let ghost k = ropes@.len() as int;
        let x = rem.remove(0);
        proof {
            assert(x == args_snap@[k]);
            vstd::seq::axiom_seq_index_decreases(args_snap@, 0);
            if lit {
                lemma_texts_concat_index(args_snap@, 0, k);
            }
        }
        let ghost y_before = *y;
        match expand(x, y, fuel - 1) {
            Err(e) => {
                proof {
                    lemma_frame_trans(y0, y_before, *y);
                }
                return Err(e);
            },
            Ok(rope) => {
                proof {
                    lemma_frame_trans(y0, y_before, *y);
                }
                ropes.push(rope);
                proof {
                    assert(rem@ =~= args_snap@.subrange(
                        ropes@.len() as int,
                        args_snap@.len() as int,
                    ));
                }
            },
        }
    }
    Ok(ropes)
}

/// Binds a template against the actual arguments and expands the bound
/// tree; an out-of-range argument index is an authoring bug in the macro
/// table, reported at the invocation's span.
fn bind_and_expand(template: Out, args: Vec<OutInternal>, span: Trace, y: &mut Yatt, fuel: u64) -> (
    r: Result<Rope, ExpansionError>)
    requires
        old(y).state.wf(),
    ensures
        frame(*old(y), *final(y)),
        restored(*old(y), *final(y)),
    decreases fuel, 1int,
{
    if fuel == 0 {
        return Err(ExpansionError::TooDeep(span));
    }
    let mut slots: Vec<Option<OutInternal>> = Vec::new();
    let mut rem = args;
    loop
        decreases rem@.len(),
    {
        if rem.len() == 0 {
            break;
        }
        let x = rem.remove(0);
        slots.push(Some(x));
    }
    match out_to_internal(template, &mut slots) {
        Err(i) => Err(ExpansionError::ArgumentIndex(i, span)),
        Ok(bound) => expand(bound, y, fuel - 1),
    }
}


/// The counters after a heading at level `lv` took its number.
pub open spec fn spec_counts_after(c: Seq<usize>, lv: int, no_numbering: bool) -> Seq<usize> {
    if no_numbering {
        c
    } else {
        c.update(lv, (c[lv] + 1) as usize)
    }
}

/// Expands a section heading: takes the next number at the nesting level
/// one deeper, zeroes the box counters owned by that level, registers the
/// heading's id and its numbering string, pushes the section onto the
/// navigation tree while its body expands, and unwinds the level, the
/// deeper counters and the tree on every exit path. Nesting is bounded by
/// the six counter slots, of which the root level owns the unused first:
/// headings can nest five deep, and a sixth heading level is the fatal
/// nesting error.
fn hsection_arm(
    span: Trace,
    id: String,
    args: Vec<OutInternal>,
    no_numbering: bool,
    y: &mut Yatt,
    fuel: u64,
) -> (r: Result<Rope, ExpansionError>)
    requires
        old(y).state.wf(),
    ensures
        frame(*old(y), *final(y)),
        restored(*old(y), *final(y)),
        (args@.len() != 2 ==> r == Result::<Rope, ExpansionError>::Err(
            ExpansionError::ArgumentNumber(args@.len() as usize, span),
        ) && *final(y) == *old(y)),
        (old(y).state.hsection_level >= 5 && args@.len() == 2 ==> r == Result::<
            Rope,
            ExpansionError,
        >::Err(ExpansionError::HSectionTooManyLevels(span)) && *final(y) == *old(y)),
        (r matches Ok(_) ==> {
            let lv = old(y).state.hsection_level + 1;
            let c2 = spec_counts_after(old(y).state.hsection_current_count@, lv as int, no_numbering);
            &&& final(y).state.sticky_state.hsections@.contains_key(id@)
            &&& final(y).state.sticky_state.hsections@[id@].numbering@ == (if no_numbering {
                Seq::<char>::empty()
            } else {
                crate::state::spec_hsection_numbering(c2, 0)
            })
            &&& forall|i: int| lv < i < 6 ==> final(y).state.hsection_current_count@[i] == 0
            &&& forall|i: int|
                0 <= i <= lv ==> final(y).state.hsection_current_count@[i] == c2[i]
        }),
        (args@.len() == 2 && old(y).state.hsection_level < 5 && (no_numbering || old(y).state.hsection_current_count@[old(y).state.hsection_level + 1] < usize::MAX) ==> forall|
            i: int,
        |
            old(y).state.hsection_level + 1 < i < 6 ==> final(y).state.hsection_current_count@[i] == 0),
    decreases fuel, 1int,
{
    match arguments_exact(2, args.len(), span) {
        Err(e) => {
            return Err(e);
        },
        Ok(()) => {},
    }
    if y.state.hsection_level >= 5 {
        return Err(ExpansionError::HSectionTooManyLevels(span));
    }
    let ghost y0 = *y;
    let old_level = y.state.hsection_level;
    let lv = old_level + 1;
    y.state.hsection_level = lv;
    if !no_numbering {
        let cur = y.state.hsection_current_count[lv];
        if cur == usize::MAX {
            y.state.hsection_level = old_level;
            return Err(ExpansionError::TooDeep(span));
        }
        vec_set_usize(&mut y.state.hsection_current_count, lv, cur + 1);
    }
    if y.state.box_exercise_level == lv {
        y.state.box_exercise_current_count = 0;
    }
    if y.state.box_other_level == lv {
        y.state.box_other_current_count = 0;
    }
    let ghost c2 = y.state.hsection_current_count@;
    let ghost path0 = y.state.sticky_state.hsections_structure.path();
    let numbering: String = if no_numbering {
        String::new()
    } else {
        crate::state::hsection_numbering(&y.state.hsection_current_count)
    };
    let id_trace = if args.len() > 0 {
        args[0].trace()
    } else {
        Trace::none()
    };
    y.state.sticky_state.hsections_structure.push(id.clone(), y.state.second_iteration);
    let res = expand_seq(args, y, fuel);
    match res {
        Err(e) => {
            hsection_unwind(y, lv, old_level);
            proof {
                assert(y.state.sticky_state.hsections_structure.path() =~= path0);
            }
            return Err(e);
        },
        Ok(ropes) => {
            let title = rope_to_string(&ropes[0]);
            let body = &ropes[1];
            let url = match y.state.register_id(id.as_str(), CrefKind::HSection, id_trace) {
                Err(e) => {
                    hsection_unwind(y, lv, old_level);
                    proof {
                        assert(y.state.sticky_state.hsections_structure.path() =~= path0);
                    }
                    return Err(e);
                },
                Ok(u) => u,
            };
            y.state.sticky_state.hsections.insert(
                id.clone(),
                HSectionInfo {
                    name: hsection_name(lv).to_owned(),
                    title: title.clone(),
                    numbering: numbering.clone(),
                },
            );
            let mut html = rope_new();
            let mut open_tag = String::new();
            crate::text::push_str(&mut open_tag, "<section>\n    <h");
            let lvl_num = crate::text::decimal_string(lv + 1);
            crate::text::push_string(&mut open_tag, &lvl_num);
            crate::text::push_str(&mut open_tag, " id=\"");
            crate::text::push_string(&mut open_tag, &id);
            crate::text::push_str(&mut open_tag, "\"><a href=\"");
            crate::text::push_string(&mut open_tag, &url);
            crate::text::push_str(&mut open_tag, "\">");
            if hsection_render_number(lv) && !no_numbering {
                crate::text::push_str(&mut open_tag, hsection_pre_number(lv));
                crate::text::push_string(&mut open_tag, &numbering);
                crate::text::push_str(&mut open_tag, hsection_post_number(lv));
            }
            crate::text::push_string(&mut open_tag, &title);
            crate::text::push_str(&mut open_tag, "</a></h");
            crate::text::push_string(&mut open_tag, &lvl_num);
            crate::text::push_str(&mut open_tag, ">\n    ");
            rope_push_string(&mut html, &open_tag);
            rope_append(&mut html, rope_clone(body));
            rope_push_str(&mut html, "\n</section>");
            hsection_unwind(y, lv, old_level);
            proof {
                assert(y.state.sticky_state.hsections_structure.path() =~= path0);
            }
            Ok(html)
        },
    }
}

/// Leaves a section: zeroes the counters deeper than its level and steps
/// the nesting level and the navigation tree back out.
fn hsection_unwind(y: &mut Yatt, lv: usize, old_level: usize)
    requires
        old(y).state.wf(),
        1 <= lv <= 5,
        old_level == lv - 1,
        old(y).state.hsection_level == lv,
    ensures
        final(y).state.wf(),
        final(y).state.hsection_level == old_level,
        final(y).state.hsection_current_count@.len() == 6,
        forall|i: int| lv < i < 6 ==> final(y).state.hsection_current_count@[i] == 0,
        forall|i: int|
            0 <= i <= lv ==> final(y).state.hsection_current_count@[i] == old(y).state.hsection_current_count@[i],
        *final(y) == (Yatt {
            state: State {
                hsection_level: final(y).state.hsection_level,
                hsection_current_count: final(y).state.hsection_current_count,
                sticky_state: final(y).state.sticky_state,
                ..old(y).state
            },
            ..*old(y)
        }),
        final(y).state.sticky_state == (crate::state::StickyState {
            hsections_structure: final(y).state.sticky_state.hsections_structure,
            ..old(y).state.sticky_state
        }),
        final(y).state.sticky_state.hsections_structure.wf(),
        final(y).state.sticky_state.hsections_structure.path() == (if old(y).state.sticky_state.hsections_structure.path().len() == 0 {
            old(y).state.sticky_state.hsections_structure.path()
        } else {
            old(y).state.sticky_state.hsections_structure.path().drop_last()
        }),
        final(y).state.sticky_state.hsections_structure.finished() == old(y).state.sticky_state.hsections_structure.finished(),
{
    let mut i: usize = lv + 1;
    while i < 6
        invariant
            lv + 1 <= i <= 6,
            y.state.hsection_current_count@.len() == 6,
            forall|j: int| lv < j < i ==> y.state.hsection_current_count@[j] == 0,
            forall|j: int|
                0 <= j <= lv ==> y.state.hsection_current_count@[j] == old(y).state.hsection_current_count@[j],
            *y == (Yatt {
                state: State {
                    hsection_current_count: y.state.hsection_current_count,
                    ..old(y).state
                },
                ..*old(y)
            }),
        decreases 6 - i,
    {
        vec_set_usize(&mut y.state.hsection_current_count, i, 0);
        i = i + 1;
    }
    y.state.hsection_level = old_level;
    y.state.sticky_state.hsections_structure.pop();
}

/// Expands a numbered box: takes the next number of its family, composes
/// its numbering under the family's owning level, registers its id, logs
/// its preview snippet and any pending box previews, and renders the
/// article.
#[verifier::rlimit(60)]
fn box_arm(
    span: Trace,
    params: Vec<String>,
    args: Vec<OutInternal>,
    kind: BoxKind,
    name: String,
    y: &mut Yatt,
    fuel: u64,
) -> (r: Result<Rope, ExpansionError>)
    requires
        old(y).state.wf(),
    ensures
        frame(*old(y), *final(y)),
        restored(*old(y), *final(y)),
        ((args@.len() < 1 || args@.len() >= 3) ==> r == Result::<Rope, ExpansionError>::Err(
            ExpansionError::ArgumentNumber(args@.len() as usize, span),
        ) && *final(y) == *old(y)),
        (r matches Ok(_) ==> {
            let id = if params@.len() > 0 {
                params@[0]@
            } else {
                Seq::<char>::empty()
            };
            &&& final(y).state.sticky_state.boxes@.contains_key(id)
            &&& final(y).state.sticky_state.boxes@[id].kind == kind
            &&& final(y).state.sticky_state.boxes@[id].name@ == name@
            &&& (kind matches BoxKind::Exercise ==> old(y).state.box_exercise_current_count
                < usize::MAX && final(y).state.sticky_state.boxes@[id].numbering@
                == crate::state::spec_box_numbering(
                old(y).state.hsection_current_count@,
                old(y).state.box_exercise_level as int,
                (old(y).state.box_exercise_current_count + 1) as usize,
            ))
            &&& (kind matches BoxKind::Other(k2) ==> old(y).state.box_other_current_count
                < usize::MAX && final(y).state.sticky_state.boxes@[id].numbering@
                == crate::state::spec_box_numbering(
                old(y).state.hsection_current_count@,
                old(y).state.box_other_level as int,
                (old(y).state.box_other_current_count + 1) as usize,
            ))
            &&& final(y).state.box_current is None
        }),
        (texts_concat(args@, 0) is Some && fuel >= 1 && 1 <= args@.len() < 3 && (
        r matches Ok(_)) ==> {
            let id = if params@.len() > 0 {
                params@[0]@
            } else {
                Seq::<char>::empty()
            };
            &&& (kind matches BoxKind::Exercise ==> final(y).state.box_exercise_current_count
                == old(y).state.box_exercise_current_count + 1 && final(y).state.box_other_current_count == old(y).state.box_other_current_count)
            &&& (kind matches BoxKind::Other(k3) ==> final(y).state.box_other_current_count == old(y).state.box_other_current_count + 1 && final(y).state.box_exercise_current_count
                == old(y).state.box_exercise_current_count)
            &&& (id.len() > 0 ==> final(y).state.sticky_state.ids@.contains_key(id))
            &&& (old(y).state.second_iteration ==> final(y).outputs@.len() > old(y).outputs@.len() && final(y).outputs@[old(y).outputs@.len() as int].path@
                == spec_preview_path(old(y).state, id))
        }),
    decreases fuel, 1int,
{
    match arguments_gte(1, args.len(), span) {
        Err(e) => {
            return Err(e);
        },
        Ok(()) => {},
    }
    match arguments_lt(3, args.len(), span) {
        Err(e) => {
            return Err(e);
        },
        Ok(()) => {},
    }
    let ghost y0 = *y;
    let (family_level, number): (usize, usize) = match kind {
        BoxKind::Exercise => {
            if y.state.box_exercise_current_count == usize::MAX {
                return Err(ExpansionError::TooDeep(span));
            }
            y.state.box_exercise_current_count = y.state.box_exercise_current_count + 1;
            (y.state.box_exercise_level, y.state.box_exercise_current_count)
        },
        BoxKind::Other(_) => {
            if y.state.box_other_current_count == usize::MAX {
                return Err(ExpansionError::TooDeep(span));
            }
            y.state.box_other_current_count = y.state.box_other_current_count + 1;
            (y.state.box_other_level, y.state.box_other_current_count)
        },
        BoxKind::Proof => (0, 0),
    };
    let numbering = crate::state::box_numbering(&y.state.hsection_current_count, family_level, number);
    let id: String = if params.len() > 0 {
        params[0].clone()
    } else {
        String::new()
    };
    let classes: String = if params.len() > 1 {
        params[1].clone()
    } else {
        String::new()
    };
    y.state.box_current = Some(id.clone());
    let res = expand_seq(args, y, fuel);
    match res {
        Err(e) => {
            y.state.box_current = None;
            return Err(e);
        },
        Ok(ropes) => {
            let url = match y.state.register_id(id.as_str(), CrefKind::Box, Trace::none()) {
                Err(e) => {
                    y.state.box_current = None;
                    return Err(e);
                },
                Ok(u) => u,
            };
            y.state.sticky_state.boxes.insert(
                id.clone(),
                BoxInfo {
                    name: name.clone(),
                    numbering: numbering.clone(),
                    kind,
                    classes: classes.clone(),
                },
            );
            let mut html = String::new();
            crate::text::push_str(&mut html, "<article class=\"");
            let cls = kind.class();
            crate::text::push_string(&mut html, &cls);
            crate::text::push_str(&mut html, " ");
            crate::text::push_string(&mut html, &classes);
            crate::text::push_str(&mut html, "\" id=\"");
            crate::text::push_string(&mut html, &id);
            crate::text::push_str(&mut html, "\">\n    <h6><a href=\"");
            crate::text::push_string(&mut html, &url);
            crate::text::push_str(&mut html, "\">");
            crate::text::push_string(&mut html, &name);
            crate::text::push_str(&mut html, " ");
            crate::text::push_string(&mut html, &numbering);
            if ropes.len() == 2 {
                crate::text::push_str(&mut html, ": ");
                let first = rope_to_string(&ropes[0]);
                crate::text::push_string(&mut html, &first);
            }
            crate::text::push_str(&mut html, "</a></h6>\n    ");
            let last = rope_to_string(&ropes[ropes.len() - 1]);
            crate::text::push_string(&mut html, &last);
            crate::text::push_str(&mut html, "\n</article>");
            let ghost y_a = *y;
            create_preview(y, id.as_str(), html.as_str());
            let ghost y_b = *y;
            create_box_previews(y, html.as_str());
            proof {
                lemma_frame_trans(y0, y_a, y_b);
                lemma_frame_trans(y0, y_b, *y);
            }
            y.state.box_current = None;
            Ok(rope_from_str(html.as_str()))
        },
    }
}

/// Expands an unnumbered-family fact box; without numbering suppressed it
/// takes the next number of the shared box counter, with a leading space
/// before its numbering.
#[verifier::rlimit(60)]
fn fact_arm(
    span: Trace,
    params: Vec<String>,
    args: Vec<OutInternal>,
    name: String,
    no_numbering: bool,
    y: &mut Yatt,
    fuel: u64,
) -> (r: Result<Rope, ExpansionError>)
    requires
        old(y).state.wf(),
    ensures
        frame(*old(y), *final(y)),
        restored(*old(y), *final(y)),
        ((args@.len() < 1 || args@.len() >= 3) ==> r == Result::<Rope, ExpansionError>::Err(
            ExpansionError::ArgumentNumber(args@.len() as usize, span),
        ) && *final(y) == *old(y)),
        (texts_concat(args@, 0) is Some && fuel >= 1 && 1 <= args@.len() < 3 && (
        r matches Ok(_)) ==> {
            let id = if params@.len() > 0 {
                params@[0]@
            } else {
                Seq::<char>::empty()
            };
            &&& (!no_numbering ==> final(y).state.box_other_current_count == old(y).state.box_other_current_count + 1)
            &&& (no_numbering ==> final(y).state.box_other_current_count == old(y).state.box_other_current_count)
            &&& final(y).state.box_exercise_current_count == old(y).state.box_exercise_current_count
            &&& (id.len() > 0 ==> final(y).state.sticky_state.ids@.contains_key(id))
            &&& (old(y).state.second_iteration ==> final(y).outputs@.len() > old(y).outputs@.len() && final(y).outputs@[old(y).outputs@.len() as int].path@
                == spec_preview_path(old(y).state, id))
        }),
    decreases fuel, 1int,
{
    match arguments_gte(1, args.len(), span) {
        Err(e) => {
            return Err(e);
        },
        Ok(()) => {},
    }
    match arguments_lt(3, args.len(), span) {
        Err(e) => {
            return Err(e);
        },
        Ok(()) => {},
    }
    let ghost y0 = *y;
    if !no_numbering {
        if y.state.box_other_current_count == usize::MAX {
            return Err(ExpansionError::TooDeep(span));
        }
        y.state.box_other_current_count = y.state.box_other_current_count + 1;
    }
    let family_level = y.state.box_other_level;
    let number = y.state.box_other_current_count;
    let numbering: String = if no_numbering {
        String::new()
    } else {
        let inner = crate::state::box_numbering(
            &y.state.hsection_current_count,
            family_level,
            number,
        );
        let mut n2 = " ".to_owned();
        crate::text::push_string(&mut n2, &inner);
        n2
    };
    let id: String = if params.len() > 0 {
        params[0].clone()
    } else {
        String::new()
    };
    y.state.box_current = Some(id.clone());
    let res = expand_seq(args, y, fuel);
    match res {
        Err(e) => {
            y.state.box_current = None;
            return Err(e);
        },
        Ok(ropes) => {
            let url = match y.state.register_id(id.as_str(), CrefKind::Box, Trace::none()) {
                Err(e) => {
                    y.state.box_current = None;
                    return Err(e);
                },
                Ok(u) => u,
            };
            y.state.sticky_state.boxes.insert(
                id.clone(),
                BoxInfo {
                    name: name.clone(),
                    numbering: numbering.clone(),
                    kind: BoxKind::fact(),
                    classes: String::new(),
                },
            );
            let mut html = String::new();
            crate::text::push_str(&mut html, "<article class=\"");
            let cls = BoxKind::fact().class();
            crate::text::push_string(&mut html, &cls);
            crate::text::push_str(&mut html, "\" id=\"");
            crate::text::push_string(&mut html, &id);
            crate::text::push_str(&mut html, "\">\n    <h6><a href=\"");
            crate::text::push_string(&mut html, &url);
            crate::text::push_str(&mut html, "\">");
            crate::text::push_string(&mut html, &name);
            crate::text::push_string(&mut html, &numbering);
            if ropes.len() == 2 {
                crate::text::push_str(&mut html, ": ");
                let first = rope_to_string(&ropes[0]);
                crate::text::push_string(&mut html, &first);
            }
            crate::text::push_str(&mut html, "</a></h6>\n    ");
            let last = rope_to_string(&ropes[ropes.len() - 1]);
            crate::text::push_string(&mut html, &last);
            crate::text::push_str(&mut html, "\n</article>");
            let ghost y_a = *y;
            create_preview(y, id.as_str(), html.as_str());
            let ghost y_b = *y;
            create_box_previews(y, html.as_str());
            proof {
                lemma_frame_trans(y0, y_a, y_b);
                lemma_frame_trans(y0, y_b, *y);
            }
            y.state.box_current = None;
            Ok(rope_from_str(html.as_str()))
        },
    }
}

/// Expands a proof box: an unnumbered box whose heading names the claim it
/// proves; its own id derives from the claim's id unless one is given.
fn proof_arm(span: Trace, params: Vec<String>, args: Vec<OutInternal>, y: &mut Yatt, fuel: u64) -> (
    r: Result<Rope, ExpansionError>)
    requires
        old(y).state.wf(),
    ensures
        frame(*old(y), *final(y)),
        restored(*old(y), *final(y)),
        (args@.len() != 1 ==> r == Result::<Rope, ExpansionError>::Err(
            ExpansionError::ArgumentNumber(args@.len() as usize, span),
        ) && *final(y) == *old(y)),
    decreases fuel, 1int,
{
    match arguments_gte(1, args.len(), span) {
        Err(e) => {
            return Err(e);
        },
        Ok(()) => {},
    }
    match arguments_lt(2, args.len(), span) {
        Err(e) => {
            return Err(e);
        },
        Ok(()) => {},
    }
    let ghost y0 = *y;
    let claim_id: String = if params.len() > 0 {
        params[0].clone()
    } else {
        String::new()
    };
    let id: String = if params.len() == 1 {
        let mut i = "proof_".to_owned();
        crate::text::push_string(&mut i, &claim_id);
        i
    } else if params.len() >= 3 {
        params[2].clone()
    } else {
        String::new()
    };
    y.state.box_current = Some(id.clone());
    let res = expand_seq(args, y, fuel);
    match res {
        Err(e) => {
            y.state.box_current = None;
            return Err(e);
        },
        Ok(ropes) => {
            let url = match y.state.register_id(id.as_str(), CrefKind::Box, Trace::none()) {
                Err(e) => {
                    y.state.box_current = None;
                    return Err(e);
                },
                Ok(u) => u,
            };
            y.state.sticky_state.boxes.insert(
                id.clone(),
                BoxInfo {
                    name: "Proof".to_owned(),
                    numbering: String::new(),
                    kind: BoxKind::proof_box(),
                    classes: String::new(),
                },
            );
            let claim = match y.state.claim_name(claim_id.as_str(), Trace::none()) {
                Err(e) => {
                    y.state.box_current = None;
                    return Err(e);
                },
                Ok(c) => c,
            };
            let mut html = String::new();
            crate::text::push_str(&mut html, "<article class=\"");
            let cls = BoxKind::proof_box().class();
            crate::text::push_string(&mut html, &cls);
            crate::text::push_str(&mut html, "\" id=\"");
            crate::text::push_string(&mut html, &id);
            crate::text::push_str(&mut html, "\">\n    <h6><a href=\"");
            crate::text::push_string(&mut html, &url);
            crate::text::push_str(&mut html, "\">");
            if params.len() > 1 {
                crate::text::push_string(&mut html, &params[1]);
            }
            crate::text::push_str(&mut html, "Proof of ");
            crate::text::push_string(&mut html, &claim);
            crate::text::push_str(&mut html, "</a></h6>\n    ");
            let last = rope_to_string(&ropes[ropes.len() - 1]);
            crate::text::push_string(&mut html, &last);
            crate::text::push_str(&mut html, "\n</article>");
            let ghost y_a = *y;
            create_preview(y, id.as_str(), html.as_str());
            let ghost y_b = *y;
            create_box_previews(y, html.as_str());
            proof {
                lemma_frame_trans(y0, y_a, y_b);
                lemma_frame_trans(y0, y_b, *y);
            }
            y.state.box_current = None;
            Ok(rope_from_str(html.as_str()))
        },
    }
}

/// The rendered link of a cross-reference to a numbered box outside math
/// mode, labelled by the box's registered name and numbering.
pub open spec fn spec_cref_box_tag(
    url: Seq<char>,
    preview: Seq<char>,
    info: BoxInfo,
) -> Seq<char> {
    "<a class=\"ref "@ + info.kind.spec_class() + "\" href=\""@ + url + "\" data-preview=\""@
        + preview + "\" data-width=\""@ + info.classes@ + "\">"@ + info.name@ + "&nbsp;"@
        + info.numbering@ + "</a>"@
}

/// Expands a cross-reference. The first pass emits nothing at all: the
/// registry is not final yet. The second pass resolves the id and renders
/// a link from the registered numbering and title, in text or math form as
/// the mode demands; an id registered nowhere is an error.
fn cref_arm(span: Trace, args: Vec<OutInternal>, y: &mut Yatt, fuel: u64) -> (r: Result<
    Rope,
    ExpansionError,
>)
    requires
        old(y).state.wf(),
    ensures
        frame(*old(y), *final(y)),
        restored(*old(y), *final(y)),
        ((args@.len() < 1 || args@.len() >= 3) ==> r == Result::<Rope, ExpansionError>::Err(
            ExpansionError::ArgumentNumber(args@.len() as usize, span),
        ) && *final(y) == *old(y)),
        (!old(y).state.second_iteration && 1 <= args@.len() < 3 ==> *final(y) == *old(y)
            && (r matches Ok(rope) && rope_text(rope) == Seq::<char>::empty())),
        (old(y).state.second_iteration && 1 <= args@.len() < 3 && texts_concat(args@, 0) is Some
            && fuel >= 1 ==> {
            let idt = text_run(args@[0]).unwrap();
            &&& (!old(y).state.sticky_state.ids@.contains_key(idt) ==> r == Result::<
                Rope,
                ExpansionError,
            >::Err(ExpansionError::UnknownId(args@[0].spec_trace())))
            &&& (old(y).state.sticky_state.ids@.contains_key(idt) && old(y).state.sticky_state.ids@[idt].kind == CrefKind::BoxlessDefinition ==> r == Result::<
                Rope,
                ExpansionError,
            >::Err(ExpansionError::CrefBoxlessDefinition(args@[0].spec_trace())))
            &&& (args@.len() == 1 && old(y).state.sticky_state.ids@.contains_key(idt) && old(y).state.sticky_state.ids@[idt].kind == CrefKind::Box && old(y).state.sticky_state.boxes@.contains_key(idt) && !(old(y).state.sticky_state.boxes@[idt].kind matches BoxKind::Proof) && !old(y).state.mathmode ==> (r matches Ok(rope) && rope_text(rope) == spec_cref_box_tag(
                old(y).state.spec_id_url(idt),
                old(y).state.spec_preview_url(idt),
                old(y).state.sticky_state.boxes@[idt],
            )))
        }),
    decreases fuel, 1int,
{
    match arguments_gte(1, args.len(), span) {
        Err(e) => {
            return Err(e);
        },
        Ok(()) => {},
    }
    match arguments_lt(3, args.len(), span) {
        Err(e) => {
            return Err(e);
        },
        Ok(()) => {},
    }
    let ghost args_snap = args@;
    let id_trace = args[0].trace();
    if !y.state.second_iteration {
        return Ok(rope_new());
    }
    let nargs = args.len();
    let ropes = match expand_seq(args, y, fuel) {
        Err(e) => {
            return Err(e);
        },
        Ok(rs) => rs,
    };
    let id = rope_to_string(&ropes[0]);
    let kind: CrefKind = match y.state.sticky_state.ids.get(id.as_str()) {
        None => {
            return Err(ExpansionError::UnknownId(id_trace));
        },
        Some(info) => info.kind,
    };
    let url = match y.state.resolve_id_to_url(id.as_str(), id_trace) {
        Err(e) => {
            return Err(e);
        },
        Ok(u) => u,
    };
    match kind {
        CrefKind::HSection => {
            let label: String = if nargs == 2 {
                rope_to_string(&ropes[1])
            } else {
                match y.state.sticky_state.hsections.get(id.as_str()) {
                    None => {
                        return Err(ExpansionError::UnknownId(id_trace));
                    },
                    Some(info) => {
                        let mut l = info.name.clone();
                        crate::text::push_str(&mut l, "&nbsp;");
                        crate::text::push_string(&mut l, &info.numbering);
                        l
                    },
                }
            };
            let mut tag = String::new();
            crate::text::push_str(&mut tag, "<a class=\"ref\" href=\"");
            crate::text::push_string(&mut tag, &url);
            crate::text::push_str(&mut tag, "\">");
            crate::text::push_string(&mut tag, &label);
            crate::text::push_str(&mut tag, "</a>");
            Ok(rope_from_str(tag.as_str()))
        },
        CrefKind::Case => {
            let numbering: String = match y.state.sticky_state.cases.get(id.as_str()) {
                None => {
                    return Err(ExpansionError::UnknownId(id_trace));
                },
                Some(n) => n.clone(),
            };
            let label: String = if nargs == 2 {
                rope_to_string(&ropes[1])
            } else {
                let mut l = "Case&nbsp;".to_owned();
                crate::text::push_string(&mut l, &numbering);
                l
            };
            let mut tag = String::new();
            crate::text::push_str(&mut tag, "<a class=\"ref\" href=\"");
            crate::text::push_string(&mut tag, &url);
            crate::text::push_str(&mut tag, "\">");
            crate::text::push_string(&mut tag, &label);
            crate::text::push_str(&mut tag, "</a>");
            Ok(rope_from_str(tag.as_str()))
        },
        CrefKind::Box => {
            let (box_kind, box_name, box_numbering, box_classes): (
                BoxKind,
                String,
                String,
                String,
            ) = match y.state.sticky_state.boxes.get(id.as_str()) {
                None => {
                    return Err(ExpansionError::UnknownId(id_trace));
                },
                Some(info) => (
                    info.kind,
                    info.name.clone(),
                    info.numbering.clone(),
                    info.classes.clone(),
                ),
            };
            let preview = y.state.id_to_preview_url(id.as_str());
            match box_kind {
                BoxKind::Proof => {
                    let claim = match y.state.claim_name(id.as_str(), id_trace) {
                        Err(e) => {
                            return Err(e);
                        },
                        Ok(c) => c,
                    };
                    let mut tag = String::new();
                    crate::text::push_str(&mut tag, "<a class=\"ref ");
                    let cls = box_kind.class();
                    crate::text::push_string(&mut tag, &cls);
                    crate::text::push_str(&mut tag, "\" href=\"");
                    crate::text::push_string(&mut tag, &url);
                    crate::text::push_str(&mut tag, "\" data-preview=\"");
                    crate::text::push_string(&mut tag, &preview);
                    crate::text::push_str(&mut tag, "\">proof of ");
                    crate::text::push_string(&mut tag, &claim);
                    crate::text::push_str(&mut tag, "</a>");
                    Ok(rope_from_str(tag.as_str()))
                },
                _ => {
                    if y.state.mathmode {
                        let label: String = if nargs == 2 {
                            rope_to_string(&ropes[1])
                        } else {
                            let mut l = box_name.clone();
                            crate::text::push_str(&mut l, "~");
                            crate::text::push_string(&mut l, &box_numbering);
                            l
                        };
                        let mut tex = String::new();
                        crate::text::push_str(&mut tex, "\\href{");
                        crate::text::push_string(&mut tex, &url);
                        crate::text::push_str(&mut tex, "}{\\htmlClass{ref ");
                        let cls = box_kind.class();
                        crate::text::push_string(&mut tex, &cls);
                        crate::text::push_str(&mut tex, "}{\\htmlData{preview=");
                        crate::text::push_string(&mut tex, &preview);
                        crate::text::push_str(&mut tex, ", width=");
                        crate::text::push_string(&mut tex, &box_classes);
                        crate::text::push_str(&mut tex, "}{");
                        crate::text::push_string(&mut tex, &label);
                        crate::text::push_str(&mut tex, "}}}");
                        Ok(rope_from_str(tex.as_str()))
                    } else {
                        let label: String = if nargs == 2 {
                            rope_to_string(&ropes[1])
                        } else {
                            let mut l = box_name.clone();
                            crate::text::push_str(&mut l, "&nbsp;");
                            crate::text::push_string(&mut l, &box_numbering);
                            l
                        };
                        let mut tag = String::new();
                        crate::text::push_str(&mut tag, "<a class=\"ref ");
                        let cls = box_kind.class();
                        crate::text::push_string(&mut tag, &cls);
                        crate::text::push_str(&mut tag, "\" href=\"");
                        crate::text::push_string(&mut tag, &url);
                        crate::text::push_str(&mut tag, "\" data-preview=\"");
                        crate::text::push_string(&mut tag, &preview);
                        crate::text::push_str(&mut tag, "\" data-width=\"");
                        crate::text::push_string(&mut tag, &box_classes);
                        crate::text::push_str(&mut tag, "\">");
                        crate::text::push_string(&mut tag, &label);
                        crate::text::push_str(&mut tag, "</a>");
                        Ok(rope_from_str(tag.as_str()))
                    }
                },
            }
        },
        CrefKind::BoxlessDefinition => Err(ExpansionError::CrefBoxlessDefinition(id_trace)),
    }
}

/// Expands a term definition: registers the term with its singular and
/// plural forms, its link target and its preview URL; a definition inside
/// a box anchors to that box, one outside anchors to its own id.
fn define_arm(
    span: Trace,
    params: Vec<String>,
    args: Vec<OutInternal>,
    custom_text: bool,
    y: &mut Yatt,
    fuel: u64,
) -> (r: Result<Rope, ExpansionError>)
    requires
        old(y).state.wf(),
    ensures
        frame(*old(y), *final(y)),
        restored(*old(y), *final(y)),
    decreases fuel, 1int,
{
    let lo: usize = if custom_text {
        2
    } else {
        1
    };
    let hi: usize = if custom_text {
        5
    } else {
        4
    };
    match arguments_gte(lo, args.len(), span) {
        Err(e) => {
            return Err(e);
        },
        Ok(()) => {},
    }
    match arguments_lt(hi, args.len(), span) {
        Err(e) => {
            return Err(e);
        },
        Ok(()) => {},
    }
    let ghost y0 = *y;
    let nargs = args.len();
    let ropes = match expand_seq(args, y, fuel) {
        Err(e) => {
            return Err(e);
        },
        Ok(rs) => rs,
    };
    let (target_id, boxless): (String, bool) = match &y.state.box_current {
        None => {
            let t = if params.len() > 0 {
                params[0].clone()
            } else {
                String::new()
            };
            (t, true)
        },
        Some(id) => (id.clone(), false),
    };
    if custom_text {
        match y.state.register_id(target_id.as_str(), CrefKind::BoxlessDefinition, Trace::none()) {
            Err(e) => {
                return Err(e);
            },
            Ok(_) => {},
        }
        let mut content = "<article>".to_owned();
        let last = rope_to_string(&ropes[nargs - 1]);
        crate::text::push_string(&mut content, &last);
        crate::text::push_str(&mut content, "</article>");
        let ghost y_a = *y;
        create_preview(y, target_id.as_str(), content.as_str());
        proof {
            lemma_frame_trans(y0, y_a, *y);
        }
    } else {
        if boxless {
            match y.state.register_id(
                target_id.as_str(),
                CrefKind::BoxlessDefinition,
                Trace::none(),
            ) {
                Err(e) => {
                    return Err(e);
                },
                Ok(_) => {},
            }
            push_unique(&mut y.state.boxless_previews, target_id.clone());
        } else {
            push_unique(&mut y.state.box_previews, target_id.clone());
        }
    }
    let defined: String = if params.len() == 2 {
        params[1].clone()
    } else {
        rope_to_string(&ropes[0])
    };
    let href: String = if boxless {
        let mut h = y.state.domain.clone();
        let rel = y.state.current_output_relative();
        crate::text::push_string(&mut h, &rel);
        crate::text::push_str(&mut h, "#");
        crate::text::push_string(&mut h, &target_id);
        h
    } else {
        match y.state.resolve_id_to_url(target_id.as_str(), Trace::none()) {
            Err(e) => {
                return Err(e);
            },
            Ok(u) => u,
        }
    };
    let preview_url = y.state.id_to_preview_url(target_id.as_str());
    let singular = rope_to_string(&ropes[0]);
    let plural_cut: usize = if custom_text {
        3
    } else {
        2
    };
    let plural: String = if nargs >= plural_cut {
        rope_to_string(&ropes[1])
    } else {
        let mut p = singular.clone();
        crate::text::push_str(&mut p, "s");
        p
    };
    match y.state.register_define(
        defined.as_str(),
        href.clone(),
        preview_url.clone(),
        singular,
        plural,
        span,
    ) {
        Err(e) => {
            return Err(e);
        },
        Ok(()) => {},
    }
    let display_cut: usize = if custom_text {
        4
    } else {
        3
    };
    let mut out = "<dfn".to_owned();
    if boxless {
        crate::text::push_str(&mut out, " id=\"");
        crate::text::push_string(&mut out, &target_id);
        crate::text::push_str(&mut out, "\"");
    }
    crate::text::push_str(&mut out, " data-preview=\"");
    crate::text::push_string(&mut out, &preview_url);
    crate::text::push_str(&mut out, "\"><a href=\"");
    crate::text::push_string(&mut out, &href);
    crate::text::push_str(&mut out, "\">");
    let display: String = if nargs >= display_cut {
        rope_to_string(&ropes[2])
    } else {
        rope_to_string(&ropes[0])
    };
    crate::text::push_string(&mut out, &display);
    crate::text::push_str(&mut out, "</a></dfn>");
    Ok(rope_from_str(out.as_str()))
}

/// The plain rendering of a term reference.
pub open spec fn spec_refdef_plain(href: Seq<char>, preview: Seq<char>, nm: Seq<char>) -> Seq<
    char,
> {
    "<a class=\"ref definition\" href=\""@ + href + "\" data-preview=\""@ + preview + "\">"@ + nm
        + "</a>"@
}

/// The math-mode rendering of a term reference.
pub open spec fn spec_refdef_math(href: Seq<char>, preview: Seq<char>, nm: Seq<char>) -> Seq<
    char,
> {
    "\\href{"@ + href + "}{\\htmlClass{ref definition}{\\htmlData{preview="@ + preview + "}{"@ + nm
        + "}}}"@
}

/// The definition-anchor rendering of a term reference.
pub open spec fn spec_refdef_fake(id: Seq<char>, preview: Seq<char>, nm: Seq<char>) -> Seq<char> {
    "<dfn id=\""@ + id + "\"><a href=\""@ + preview + "\">"@ + nm + "</a></dfn>"@
}

/// The rendered label of a term reference without a custom label: the
/// plural or singular form as asked, capitalized when asked.
pub open spec fn spec_refdef_name(
    info: crate::state::DefinedInfo,
    capitalize: bool,
    pluralize: bool,
) -> Seq<char> {
    let base = if pluralize {
        info.plural@
    } else {
        info.singular@
    };
    if capitalize {
        crate::text::spec_uppercase_first(base)
    } else {
        base
    }
}

/// Expands a reference to a defined term. The first pass emits nothing;
/// the second renders the singular or plural form, capitalized when asked,
/// linking to the definition; a term never defined is an error.
fn refdef_arm(
    span: Trace,
    args: Vec<OutInternal>,
    capitalize: bool,
    pluralize: bool,
    fakedef: bool,
    y: &mut Yatt,
    fuel: u64,
) -> (r: Result<Rope, ExpansionError>)
    requires
        old(y).state.wf(),
    ensures
        frame(*old(y), *final(y)),
        restored(*old(y), *final(y)),
        ((args@.len() < 1 || args@.len() >= 3) ==> r == Result::<Rope, ExpansionError>::Err(
            ExpansionError::ArgumentNumber(args@.len() as usize, span),
        ) && *final(y) == *old(y)),
        (!old(y).state.second_iteration && 1 <= args@.len() < 3 ==> *final(y) == *old(y)
            && (r matches Ok(rope) && rope_text(rope) == Seq::<char>::empty())),
        (old(y).state.second_iteration && 1 <= args@.len() < 3 && texts_concat(args@, 0) is Some
            && fuel >= 1 ==> {
            let t = text_run(args@[0]).unwrap();
            &&& (!old(y).state.sticky_state.defined@.contains_key(t) ==> r == Result::<
                Rope,
                ExpansionError,
            >::Err(ExpansionError::UnknownDefine(args@[0].spec_trace())))
            &&& (args@.len() == 1 && old(y).state.sticky_state.defined@.contains_key(t) ==> (
            r matches Ok(rope) && rope_text(rope) == (if fakedef {
                spec_refdef_fake(
                    t,
                    old(y).state.sticky_state.defined@[t].preview@,
                    spec_refdef_name(
                        old(y).state.sticky_state.defined@[t],
                        capitalize,
                        pluralize,
                    ),
                )
            } else if old(y).state.mathmode {
                spec_refdef_math(
                    old(y).state.sticky_state.defined@[t].href@,
                    old(y).state.sticky_state.defined@[t].preview@,
                    spec_refdef_name(
                        old(y).state.sticky_state.defined@[t],
                        capitalize,
                        pluralize,
                    ),
                )
            } else {
                spec_refdef_plain(
                    old(y).state.sticky_state.defined@[t].href@,
                    old(y).state.sticky_state.defined@[t].preview@,
                    spec_refdef_name(
                        old(y).state.sticky_state.defined@[t],
                        capitalize,
                        pluralize,
                    ),
                )
            })))
        }),
        (old(y).state.second_iteration && args@.len() == 1 ==> (r matches Ok(rope)
            ==> exists|id: Seq<char>|
            {
                &&& #[trigger] final(y).state.sticky_state.defined@.contains_key(id)
                &&& rope_text(rope) == (if fakedef {
                    spec_refdef_fake(
                        id,
                        final(y).state.sticky_state.defined@[id].preview@,
                        spec_refdef_name(
                            final(y).state.sticky_state.defined@[id],
                            capitalize,
                            pluralize,
                        ),
                    )
                } else if old(y).state.mathmode {
                    spec_refdef_math(
                        final(y).state.sticky_state.defined@[id].href@,
                        final(y).state.sticky_state.defined@[id].preview@,
                        spec_refdef_name(
                            final(y).state.sticky_state.defined@[id],
                            capitalize,
                            pluralize,
                        ),
                    )
                } else {
                    spec_refdef_plain(
                        final(y).state.sticky_state.defined@[id].href@,
                        final(y).state.sticky_state.defined@[id].preview@,
                        spec_refdef_name(
                            final(y).state.sticky_state.defined@[id],
                            capitalize,
                            pluralize,
                        ),
                    )
                })
            })),
    decreases fuel, 1int,
{
    match arguments_gte(1, args.len(), span) {
        Err(e) => {
            return Err(e);
        },
        Ok(()) => {},
    }
    match arguments_lt(3, args.len(), span) {
        Err(e) => {
            return Err(e);
        },
        Ok(()) => {},
    }
    let id_trace = args[0].trace();
    if !y.state.second_iteration {
        return Ok(rope_new());
    }
    let nargs = args.len();
    let ropes = match expand_seq(args, y, fuel) {
        Err(e) => {
            return Err(e);
        },
        Ok(rs) => rs,
    };
    let id = rope_to_string(&ropes[0]);
    let (href, singular, plural): (String, String, String) = match y.state.sticky_state.defined.get(
        id.as_str(),
    ) {
        None => {
            return Err(ExpansionError::UnknownDefine(id_trace));
        },
        Some(info) => (info.href.clone(), info.singular.clone(), info.plural.clone()),
    };
    let name: String = if nargs == 2 {
        rope_to_string(&ropes[1])
    } else {
        let tmp = if pluralize {
            plural
        } else {
            singular
        };
        if capitalize {
            crate::text::some_kind_of_uppercase_first_letter(tmp.as_str())
        } else {
            tmp
        }
    };
    let preview_url = match y.state.resolve_defined_to_preview_url(id.as_str(), id_trace) {
        Err(e) => {
            return Err(e);
        },
        Ok(u) => u,
    };
    if fakedef {
        let mut out = "<dfn id=\"".to_owned();
        crate::text::push_string(&mut out, &id);
        crate::text::push_str(&mut out, "\"><a href=\"");
        crate::text::push_string(&mut out, &preview_url);
        crate::text::push_str(&mut out, "\">");
        crate::text::push_string(&mut out, &name);
        crate::text::push_str(&mut out, "</a></dfn>");
        Ok(rope_from_str(out.as_str()))
    } else if y.state.mathmode {
        let mut out = "\\href{".to_owned();
        crate::text::push_string(&mut out, &href);
        crate::text::push_str(&mut out, "}{\\htmlClass{ref definition}{\\htmlData{preview=");
        crate::text::push_string(&mut out, &preview_url);
        crate::text::push_str(&mut out, "}{");
        crate::text::push_string(&mut out, &name);
        crate::text::push_str(&mut out, "}}}");
        Ok(rope_from_str(out.as_str()))
    } else {
        let mut out = "<a class=\"ref definition\" href=\"".to_owned();
        crate::text::push_string(&mut out, &href);
        crate::text::push_str(&mut out, "\" data-preview=\"");
        crate::text::push_string(&mut out, &preview_url);
        crate::text::push_str(&mut out, "\">");
        crate::text::push_string(&mut out, &name);
        crate::text::push_str(&mut out, "</a>");
        Ok(rope_from_str(out.as_str()))
    }
}

/// The path an output macro writes to: an absolute path lands under the
/// project root's build directory, a relative one under the build
/// directory next to the file being expanded.
pub open spec fn spec_output_target(st: State, path: Seq<char>) -> Seq<char> {
    if crate::text::spec_is_absolute(path) {
        crate::text::spec_parent(st.entrypoint@) + "/build/"@ + path.subrange(1, path.len() as int)
    } else {
        crate::text::spec_parent(st.current_file@) + "/build/"@ + path
    }
}

/// Expands an output macro: resolves the target under the build directory,
/// makes it the current output while the content expands, and logs exactly
/// one write for it, during the second pass only. With the tee flag the
/// expanded content is also handed onward; without it nothing is.
fn output_arm(
    span: Trace,
    path: String,
    args: Vec<OutInternal>,
    tee: bool,
    y: &mut Yatt,
    fuel: u64,
) -> (r: Result<Rope, ExpansionError>)
    requires
        old(y).state.wf(),
    ensures
        frame(*old(y), *final(y)),
        restored(*old(y), *final(y)),
        (args@.len() != 1 ==> r == Result::<Rope, ExpansionError>::Err(
            ExpansionError::ArgumentNumber(args@.len() as usize, span),
        ) && *final(y) == *old(y)),
        (r matches Ok(_) && old(y).state.second_iteration ==> {
            &&& final(y).outputs@.len() >= old(y).outputs@.len() + 1
            &&& final(y).outputs@.len() > 0
            &&& final(y).outputs@.last().path@ == spec_output_target(old(y).state, path@)
            &&& (tee ==> rope_text(r.unwrap()) == final(y).outputs@.last().content@)
        }),
        (r matches Ok(_) && !tee ==> rope_text(r.unwrap()) == Seq::<char>::empty()),
    decreases fuel, 1int,
{
    match arguments_exact(1, args.len(), span) {
        Err(e) => {
            return Err(e);
        },
        Ok(()) => {},
    }
    let ghost y0 = *y;
    let old_output = y.state.current_output.clone();
    let p: String = if crate::text::is_absolute(path.as_str()) {
        let base = y.state.base_dir();
        let mut t = base;
        crate::text::push_str(&mut t, "/build/");
        let stripped = crate::text::drop_prefix(path.as_str(), 1);
        crate::text::push_string(&mut t, &stripped);
        proof {
            assert(t@ =~= spec_output_target(y.state, path@));
        }
        t
    } else {
        let cwd = y.state.cwd();
        let mut t = cwd;
        crate::text::push_str(&mut t, "/build/");
        crate::text::push_string(&mut t, &path);
        proof {
            assert(t@ =~= spec_output_target(y.state, path@));
        }
        t
    };
    y.state.current_output = p.clone();
    let res = expand_seq(args, y, fuel);
    match res {
        Err(e) => {
            y.state.current_output = old_output;
            Err(e)
        },
        Ok(ropes) => {
            let content_rope = &ropes[0];
            if y.state.second_iteration {
                let content = rope_to_string(content_rope);
                let ghost pre = y.outputs@;
                y.outputs.push(OutFile { path: p, content });
                proof {
                    assert(pre =~= y.outputs@.subrange(0, pre.len() as int));
                }
            }
            y.state.current_output = old_output;
            if tee {
                Ok(rope_clone(content_rope))
            } else {
                Ok(rope_new())
            }
        },
    }
}

/// The file an input macro reads: an absolute path resolves against the
/// project root, a relative one against the current file's directory.
pub open spec fn spec_input_target(st: State, path: Seq<char>) -> Seq<char> {
    if crate::text::spec_is_absolute(path) {
        crate::text::spec_parent(st.entrypoint@) + seq!['/'] + path.subrange(
            1,
            path.len() as int,
        )
    } else {
        crate::text::spec_parent(st.current_file@) + seq!['/'] + path
    }
}

/// Expands an input macro: resolves an absolute path against the project
/// root and a relative one against the current file's directory, makes the
/// file current while its text is parsed and expanded at a fresh offset in
/// the shared coordinate space, and restores the prior current file on
/// every exit path. A resolved path not in the run's file set is exactly
/// the missing-input error naming it.
fn input_arm(span: Trace, path: String, args_len: usize, y: &mut Yatt, fuel: u64) -> (r: Result<
    Rope,
    ExpansionError,
>)
    requires
        old(y).state.wf(),
    ensures
        frame(*old(y), *final(y)),
        restored(*old(y), *final(y)),
        (args_len != 0 ==> r == Result::<Rope, ExpansionError>::Err(
            ExpansionError::ArgumentNumber(args_len, span),
        ) && *final(y) == *old(y)),
        (args_len == 0 && fuel >= 1 && !old(y).files@.contains_key(
            spec_input_target(old(y).state, path@),
        ) ==> (r matches Err(e) && e matches ExpansionError::InputMissing(p, sp) && p@
            == spec_input_target(old(y).state, path@) && sp == span)),
    decreases fuel, 1int,
{
    match arguments_exact(0, args_len, span) {
        Err(e) => {
            return Err(e);
        },
        Ok(()) => {},
    }
    if fuel == 0 {
        return Err(ExpansionError::TooDeep(span));
    }
    let ghost y0 = *y;
    let old_file = y.state.current_file.clone();
    let joined: String = if crate::text::is_absolute(path.as_str()) {
        let base = y.state.base_dir();
        let stripped = crate::text::drop_prefix(path.as_str(), 1);
        crate::text::path_join(base.as_str(), stripped.as_str())
    } else {
        let cwd = y.state.cwd();
        crate::text::path_join(cwd.as_str(), path.as_str())
    };
    y.state.current_file = joined.clone();
    let content: String = match y.files.get(joined.as_str()) {
        None => {
            y.state.current_file = old_file;
            return Err(ExpansionError::InputMissing(joined, span));
        },
        Some(c) => c.clone(),
    };
    let len = content.as_str().unicode_len();
    if len >= usize::MAX - y.source_len {
        y.state.current_file = old_file;
        return Err(ExpansionError::TooDeep(span));
    }
    let off = y.source_len;
    y.source_len = y.source_len + len;
    let ast = match crate::parse::parse(content.as_str(), off) {
        Err(pe) => {
            y.state.current_file = old_file;
            return Err(ExpansionError::Parse(pe));
        },
        Ok(a) => a,
    };
    let res = expand(ast, y, fuel - 1);
    y.state.current_file = old_file;
    res
}

/// The TeX source a run with a literal argument list hands the renderer:
/// the sole argument; or the body followed by a trailing text wrap; or a
/// leading and a trailing text wrap around the body.
pub open spec fn spec_tex_assembled(args: Seq<OutInternal>) -> Seq<char> {
    if args.len() == 1 {
        text_run(args[0]).unwrap()
    } else if args.len() == 2 {
        text_run(args[0]).unwrap() + "\\text{"@ + text_run(args[1]).unwrap() + seq!['}']
    } else {
        "\\text{"@ + text_run(args[0]).unwrap() + seq!['}'] + text_run(args[1]).unwrap()
            + "\\text{"@ + text_run(args[2]).unwrap() + seq!['}']
    }
}

/// Expands a TeX run: enters math mode while the arguments expand, wraps a
/// leading and a trailing argument as text, and hands the composed TeX to
/// the renderer. Entering math mode while already in it is an error, and
/// the renderer's refusal aborts the run with the renderer's message.
fn tex_arm(span: Trace, args: Vec<OutInternal>, display: bool, y: &mut Yatt, fuel: u64) -> (r:
    Result<Rope, ExpansionError>)
    requires
        old(y).state.wf(),
    ensures
        frame(*old(y), *final(y)),
        restored(*old(y), *final(y)),
        ((args@.len() < 1 || args@.len() >= 4) ==> r == Result::<Rope, ExpansionError>::Err(
            ExpansionError::ArgumentNumber(args@.len() as usize, span),
        ) && *final(y) == *old(y)),
        (old(y).state.mathmode && 1 <= args@.len() < 4 ==> r == Result::<
            Rope,
            ExpansionError,
        >::Err(ExpansionError::AlreadyMathmode(span)) && *final(y) == *old(y)),
        (r matches Ok(rope) ==> exists|tex: Seq<char>|
            crate::tex::katex_output(tex, display, final(y).state.fleqn) == Some(
                #[trigger] rope_text(rope),
            )),
        (1 <= args@.len() < 4 && !old(y).state.mathmode && texts_concat(args@, 0) is Some && fuel
            >= 1 ==> {
            &&& (r matches Ok(rope) ==> crate::tex::katex_output(
                spec_tex_assembled(args@),
                display,
                old(y).state.fleqn,
            ) == Some(rope_text(rope)))
            &&& (r matches Err(e) ==> (e matches ExpansionError::TeX(m, sp) && sp == span))
            &&& (crate::tex::katex_output(
                spec_tex_assembled(args@),
                display,
                old(y).state.fleqn,
            ) is None ==> (r matches Err(e2) && e2 matches ExpansionError::TeX(m2, sp2) && sp2
                == span))
        }),
    decreases fuel, 1int,
{
    let ghost args_snap = args@;
    let ghost lit = texts_concat(args@, 0) is Some && fuel >= 1;
    match arguments_gte(1, args.len(), span) {
        Err(e) => {
            return Err(e);
        },
        Ok(()) => {},
    }
    match arguments_lt(4, args.len(), span) {
        Err(e) => {
            return Err(e);
        },
        Ok(()) => {},
    }
    match y.state.enable_mathmode(span) {
        Err(e) => {
            return Err(e);
        },
        Ok(()) => {},
    }
    let nargs = args.len();
    let ropes = match expand_seq(args, y, fuel) {
        Err(e) => {
            y.state.disable_mathmode();
            return Err(e);
        },
        Ok(rs) => rs,
    };
    y.state.disable_mathmode();
    let mut content = String::new();
    if nargs == 3 {
        crate::text::push_str(&mut content, "\\text{");
        let first = rope_to_string(&ropes[0]);
        crate::text::push_string(&mut content, &first);
        crate::text::push_str(&mut content, "}");
    }
    let mid = if nargs == 1 {
        rope_to_string(&ropes[0])
    } else {
        rope_to_string(&ropes[nargs - 2])
    };
    crate::text::push_string(&mut content, &mid);
    if nargs > 1 {
        crate::text::push_str(&mut content, "\\text{");
        let last = rope_to_string(&ropes[nargs - 1]);
        crate::text::push_string(&mut content, &last);
        crate::text::push_str(&mut content, "}");
    }
    proof {
        if lit {
            reveal_strlit("\\text{");
            reveal_strlit("}");
            assert(content@ =~= spec_tex_assembled(args_snap));
        }
    }
    match crate::tex::katex_render(content.as_str(), display, y.state.fleqn) {
        Err(msg) => Err(ExpansionError::TeX(msg, span)),
        Ok(html) => Ok(rope_from_str(html.as_str())),
    }
}

/// The rendered attributes of `attrs[..i]`, each as ` key="value"`, those
/// with a skipped key left out.
pub open spec fn spec_attrs_text(
    attrs: Seq<(String, String)>,
    i: int,
    skip_class: bool,
    skip_id: bool,
) -> Seq<char>
    decreases i,
{
    if i <= 0 || i > attrs.len() {
        Seq::empty()
    } else {
        let k = attrs[i - 1].0@;
        let done = spec_attrs_text(attrs, i - 1, skip_class, skip_id);
        if (skip_class && k == "class"@) || (skip_id && k == "id"@) {
            done
        } else {
            done + seq![' '] + k + seq!['='] + seq!['"'] + attrs[i - 1].1@ + seq!['"']
        }
    }
}

/// The opening tag text before its closing `>`: `<tag` and the kept
/// attributes.
pub open spec fn spec_open_tag(
    tag: Seq<char>,
    attrs: Seq<(String, String)>,
    skip_class: bool,
    skip_id: bool,
) -> Seq<char> {
    seq!['<'] + tag + spec_attrs_text(attrs, attrs.len() as int, skip_class, skip_id)
}

/// Builds the opening tag text `<tag k="v" ...>`, keeping only attributes
/// whose keys are not skipped.
fn open_tag_text(tag: &str, attrs: &Vec<(String, String)>, skip_class: bool, skip_id: bool) -> (r:
    String)
    ensures
        r@ == spec_open_tag(tag@, attrs@, skip_class, skip_id),
{
    let mut open = "<".to_owned();
    crate::text::push_str(&mut open, tag);
    proof {
        reveal_strlit("<");
        assert(open@ =~= seq!['<'] + tag@ + spec_attrs_text(attrs@, 0, skip_class, skip_id));
    }
    let n = attrs.len();
    let mut i: usize = 0;
    while i < n
        invariant
            i <= n,
            n == attrs@.len(),
            open@ == seq!['<'] + tag@ + spec_attrs_text(attrs@, i as int, skip_class, skip_id),
        decreases n - i,
    {
        let k = &attrs[i].0;
        let skip = (skip_class && crate::text::str_eq(k.as_str(), "class")) || (skip_id
            && crate::text::str_eq(k.as_str(), "id"));
        if !skip {
            crate::text::push_str(&mut open, " ");
            crate::text::push_string(&mut open, k);
            crate::text::push_str(&mut open, "=\"");
            crate::text::push_string(&mut open, &attrs[i].1);
            crate::text::push_str(&mut open, "\"");
        }
        proof {
            reveal_strlit(" ");
            reveal_strlit("=\"");
            reveal_strlit("\"");
            assert(open@ =~= seq!['<'] + tag@ + spec_attrs_text(
                attrs@,
                i as int + 1,
                skip_class,
                skip_id,
            ));
        }
        i = i + 1;
    }
    open
}

/// Whether `t` is the one-argument tag template: the whole opening tag,
/// the argument, the closing tag.
pub open spec fn is_tag_template1(t: Out, tag: Seq<char>, attrs: Seq<(String, String)>) -> bool {
    match t {
        Out::Many(parts) => {
            &&& parts@.len() == 3
            &&& (parts@[0] matches Out::Text(o) && o@ == spec_open_tag(tag, attrs, false, false)
                + seq!['>'])
            &&& parts@[1] == Out::Argument(0usize)
            &&& (parts@[2] matches Out::Text(cl) && cl@ == "</"@ + tag + seq!['>'])
        },
        _ => false,
    }
}

/// Whether `t` is the two-argument tag template: the first argument lands
/// in the class attribute, the second inside the tag.
pub open spec fn is_tag_template2(t: Out, tag: Seq<char>, attrs: Seq<(String, String)>) -> bool {
    match t {
        Out::Many(parts) => {
            &&& parts@.len() == 5
            &&& (parts@[0] matches Out::Text(o) && o@ == spec_open_tag(tag, attrs, true, false)
                + " class=\""@)
            &&& parts@[1] == Out::Argument(0usize)
            &&& (parts@[2] matches Out::Text(m) && m@ == "\">"@)
            &&& parts@[3] == Out::Argument(1usize)
            &&& (parts@[4] matches Out::Text(cl) && cl@ == "</"@ + tag + seq!['>'])
        },
        _ => false,
    }
}

/// Whether `t` is the three-argument tag template: the first two arguments
/// land in the id and class attributes, the third inside the tag.
pub open spec fn is_tag_template3(t: Out, tag: Seq<char>, attrs: Seq<(String, String)>) -> bool {
    match t {
        Out::Many(parts) => {
            &&& parts@.len() == 7
            &&& (parts@[0] matches Out::Text(o) && o@ == spec_open_tag(tag, attrs, true, true)
                + " id=\""@)
            &&& parts@[1] == Out::Argument(0usize)
            &&& (parts@[2] matches Out::Text(m) && m@ == "\" class=\""@)
            &&& parts@[3] == Out::Argument(1usize)
            &&& (parts@[4] matches Out::Text(m2) && m2@ == "\">"@)
            &&& parts@[5] == Out::Argument(2usize)
            &&& (parts@[6] matches Out::Text(cl) && cl@ == "</"@ + tag + seq!['>'])
        },
        _ => false,
    }
}

/// The wrapping template of an HTML tag macro: one argument is enclosed
/// whole; two put the second into the tag's class attribute; three put the
/// second and third into id and class; any other count is an
/// argument-count error.
fn html_tag(tag: &str, attrs: &Vec<(String, String)>, nargs: usize, span: Trace) -> (r: Result<
    Out,
    ExpansionError,
>)
    ensures
        (nargs == 0 || nargs > 3) ==> r == Result::<Out, ExpansionError>::Err(
            ExpansionError::ArgumentNumber(nargs, span),
        ),
        (nargs == 1 ==> (r matches Ok(t) && is_tag_template1(t, tag@, attrs@))),
        (nargs == 2 ==> (r matches Ok(t) && is_tag_template2(t, tag@, attrs@))),
        (nargs == 3 ==> (r matches Ok(t) && is_tag_template3(t, tag@, attrs@))),
{
    let mut close = "</".to_owned();
    crate::text::push_str(&mut close, tag);
    crate::text::push_str(&mut close, ">");
    proof {
        reveal_strlit("</");
        reveal_strlit(">");
        assert(close@ =~= "</"@ + tag@ + seq!['>']);
    }
    if nargs == 1 {
        let mut open = open_tag_text(tag, attrs, false, false);
        crate::text::push_str(&mut open, ">");
        proof {
            reveal_strlit(">");
            assert(open@ =~= spec_open_tag(tag@, attrs@, false, false) + seq!['>']);
        }
        let mut t: Vec<Out> = Vec::new();
        t.push(Out::Text(open));
        t.push(Out::Argument(0));
        t.push(Out::Text(close));
        Ok(Out::Many(t))
    } else if nargs == 2 {
        let mut open = open_tag_text(tag, attrs, true, false);
        crate::text::push_str(&mut open, " class=\"");
        let mut t: Vec<Out> = Vec::new();
        t.push(Out::Text(open));
        t.push(Out::Argument(0));
        t.push(Out::Text("\">".to_owned()));
        t.push(Out::Argument(1));
        t.push(Out::Text(close));
        Ok(Out::Many(t))
    } else if nargs == 3 {
        let mut open = open_tag_text(tag, attrs, true, true);
        crate::text::push_str(&mut open, " id=\"");
        let mut t: Vec<Out> = Vec::new();
        t.push(Out::Text(open));
        t.push(Out::Argument(0));
        t.push(Out::Text("\" class=\"".to_owned()));
        t.push(Out::Argument(1));
        t.push(Out::Text("\">".to_owned()));
        t.push(Out::Argument(2));
        t.push(Out::Text(close));
        Ok(Out::Many(t))
    } else {
        Err(ExpansionError::ArgumentNumber(nargs, span))
    }
}

/// Expands a bound tree to its flat text, mutating the document state as
/// its macros prescribe. Evaluation is depth-first, left to right; the
/// first error aborts the whole expansion; nothing is logged for writing
/// during the first pass, and every scoped field of the state is restored
/// on every exit path.
pub fn expand(o: OutInternal, y: &mut Yatt, fuel: u64) -> (r: Result<Rope, ExpansionError>)
    requires
        old(y).state.wf(),
    ensures
        frame(*old(y), *final(y)),
        restored(*old(y), *final(y)),
        (o matches OutInternal::Text(txt, sp) ==> *final(y) == *old(y) && (r matches Ok(rope)
            && rope_text(rope) == txt@)),
        (o matches OutInternal::Const(sp, cargs, body) ==> (cargs@.len() == 0 ==> *final(y)
            == *old(y) && (r matches Ok(rope) && rope_text(rope) == body@))),
        (o matches OutInternal::Const(sp, cargs, body) ==> (cargs@.len() != 0 ==> *final(y)
            == *old(y) && r == Result::<Rope, ExpansionError>::Err(
            ExpansionError::ArgumentNumber(cargs@.len() as usize, sp),
        ))),
        (o matches OutInternal::EmptyMacro(sp, cargs) ==> (cargs@.len() == 0 ==> *final(y)
            == *old(y) && (r matches Ok(rope) && rope_text(rope) == Seq::<char>::empty()))),
        (o matches OutInternal::Cwd(sp, cargs) ==> (cargs@.len() == 0 ==> *final(y) == *old(y)
            && (r matches Ok(rope) && rope_text(rope) == crate::text::spec_parent(
            old(y).state.current_file@,
        )))),
        (flat_text(o) matches Some(c) ==> (fuel >= 1 ==> *final(y) == *old(y) && (r matches Ok(
            rope,
        ) && rope_text(rope) == c))),
        (o matches OutInternal::TeX(sp, targs, disp) ==> {
            &&& ((targs@.len() < 1 || targs@.len() >= 4) ==> r == Result::<
                Rope,
                ExpansionError,
            >::Err(ExpansionError::ArgumentNumber(targs@.len() as usize, sp)) && *final(y) == *old(y))
            &&& (old(y).state.mathmode && 1 <= targs@.len() < 4 ==> r == Result::<
                Rope,
                ExpansionError,
            >::Err(ExpansionError::AlreadyMathmode(sp)) && *final(y) == *old(y))
            &&& (1 <= targs@.len() < 4 && !old(y).state.mathmode && texts_concat(
                targs@,
                0,
            ) is Some && fuel >= 1 ==> {
                &&& (r matches Ok(rope) ==> crate::tex::katex_output(
                    spec_tex_assembled(targs@),
                    disp,
                    old(y).state.fleqn,
                ) == Some(rope_text(rope)))
                &&& (r matches Err(e) ==> (e matches ExpansionError::TeX(m, sp2) && sp2 == sp))
            })
        }),
        (o matches OutInternal::Cref(sp, cargs) ==> {
            &&& ((cargs@.len() < 1 || cargs@.len() >= 3) ==> r == Result::<
                Rope,
                ExpansionError,
            >::Err(ExpansionError::ArgumentNumber(cargs@.len() as usize, sp)) && *final(y) == *old(y))
            &&& (!old(y).state.second_iteration && 1 <= cargs@.len() < 3 ==> *final(y) == *old(y)
                && (r matches Ok(rope) && rope_text(rope) == Seq::<char>::empty()))
            &&& (old(y).state.second_iteration && 1 <= cargs@.len() < 3 && texts_concat(
                cargs@,
                0,
            ) is Some && fuel >= 1 ==> {
                let idt = text_run(cargs@[0]).unwrap();
                &&& (!old(y).state.sticky_state.ids@.contains_key(idt) ==> r == Result::<
                    Rope,
                    ExpansionError,
                >::Err(ExpansionError::UnknownId(cargs@[0].spec_trace())))
                &&& (cargs@.len() == 1 && old(y).state.sticky_state.ids@.contains_key(idt) && old(y).state.sticky_state.ids@[idt].kind == CrefKind::Box && old(y).state.sticky_state.boxes@.contains_key(idt) && !(old(y).state.sticky_state.boxes@[idt].kind matches BoxKind::Proof) && !old(y).state.mathmode ==> (r matches Ok(rope) && rope_text(rope) == spec_cref_box_tag(
                    old(y).state.spec_id_url(idt),
                    old(y).state.spec_preview_url(idt),
                    old(y).state.sticky_state.boxes@[idt],
                )))
            })
        }),
        (o matches OutInternal::ReferenceDefined(sp, rargs, cap, plu, fake) ==> {
            &&& ((rargs@.len() < 1 || rargs@.len() >= 3) ==> r == Result::<
                Rope,
                ExpansionError,
            >::Err(ExpansionError::ArgumentNumber(rargs@.len() as usize, sp)) && *final(y) == *old(y))
            &&& (!old(y).state.second_iteration && 1 <= rargs@.len() < 3 ==> *final(y) == *old(y)
                && (r matches Ok(rope) && rope_text(rope) == Seq::<char>::empty()))
            &&& (old(y).state.second_iteration && 1 <= rargs@.len() < 3 && texts_concat(
                rargs@,
                0,
            ) is Some && fuel >= 1 ==> {
                let t = text_run(rargs@[0]).unwrap();
                &&& (!old(y).state.sticky_state.defined@.contains_key(t) ==> r == Result::<
                    Rope,
                    ExpansionError,
                >::Err(ExpansionError::UnknownDefine(rargs@[0].spec_trace())))
                &&& (rargs@.len() == 1 && old(y).state.sticky_state.defined@.contains_key(t)
                    ==> (r matches Ok(rope) && rope_text(rope) == (if fake {
                    spec_refdef_fake(
                        t,
                        old(y).state.sticky_state.defined@[t].preview@,
                        spec_refdef_name(old(y).state.sticky_state.defined@[t], cap, plu),
                    )
                } else if old(y).state.mathmode {
                    spec_refdef_math(
                        old(y).state.sticky_state.defined@[t].href@,
                        old(y).state.sticky_state.defined@[t].preview@,
                        spec_refdef_name(old(y).state.sticky_state.defined@[t], cap, plu),
                    )
                } else {
                    spec_refdef_plain(
                        old(y).state.sticky_state.defined@[t].href@,
                        old(y).state.sticky_state.defined@[t].preview@,
                        spec_refdef_name(old(y).state.sticky_state.defined@[t], cap, plu),
                    )
                })))
            })
            &&& (old(y).state.second_iteration && rargs@.len() == 1 ==> (r matches Ok(rope)
                ==> exists|id: Seq<char>|
                {
                    &&& #[trigger] final(y).state.sticky_state.defined@.contains_key(id)
                    &&& rope_text(rope) == (if fake {
                        spec_refdef_fake(
                            id,
                            final(y).state.sticky_state.defined@[id].preview@,
                            spec_refdef_name(final(y).state.sticky_state.defined@[id], cap, plu),
                        )
                    } else if old(y).state.mathmode {
                        spec_refdef_math(
                            final(y).state.sticky_state.defined@[id].href@,
                            final(y).state.sticky_state.defined@[id].preview@,
                            spec_refdef_name(final(y).state.sticky_state.defined@[id], cap, plu),
                        )
                    } else {
                        spec_refdef_plain(
                            final(y).state.sticky_state.defined@[id].href@,
                            final(y).state.sticky_state.defined@[id].preview@,
                            spec_refdef_name(final(y).state.sticky_state.defined@[id], cap, plu),
                        )
                    })
                }))
        }),
        (o matches OutInternal::HSection(sp, hparams, hargs, nonum) ==> {
            &&& (hargs@.len() != 2 ==> r == Result::<Rope, ExpansionError>::Err(
                ExpansionError::ArgumentNumber(hargs@.len() as usize, sp),
            ) && *final(y) == *old(y))
            &&& (old(y).state.hsection_level >= 5 && hargs@.len() == 2 ==> r == Result::<
                Rope,
                ExpansionError,
            >::Err(ExpansionError::HSectionTooManyLevels(sp)) && *final(y) == *old(y))
            &&& (r matches Ok(_) ==> {
                let lv = old(y).state.hsection_level + 1;
                let c2 = spec_counts_after(
                    old(y).state.hsection_current_count@,
                    lv as int,
                    nonum,
                );
                &&& final(y).state.sticky_state.hsections@.contains_key(hparams.0@)
                &&& final(y).state.sticky_state.hsections@[hparams.0@].numbering@ == (if nonum {
                    Seq::<char>::empty()
                } else {
                    crate::state::spec_hsection_numbering(c2, 0)
                })
            })
        }),
        (o matches OutInternal::Output(sp, opath, oargs, tee) ==> {
            &&& (oargs@.len() != 1 ==> r == Result::<Rope, ExpansionError>::Err(
                ExpansionError::ArgumentNumber(oargs@.len() as usize, sp),
            ) && *final(y) == *old(y))
            &&& (r matches Ok(_) && old(y).state.second_iteration ==> {
                &&& final(y).outputs@.len() >= old(y).outputs@.len() + 1
                &&& final(y).outputs@.len() > 0
                &&& final(y).outputs@.last().path@ == spec_output_target(old(y).state, opath@)
                &&& (tee ==> rope_text(r.unwrap()) == final(y).outputs@.last().content@)
            })
            &&& (r matches Ok(_) && !tee ==> rope_text(r.unwrap()) == Seq::<char>::empty())
        }),
        (o matches OutInternal::Input(sp, ipath, iargs) ==> {
            &&& (iargs@.len() != 0 ==> r == Result::<Rope, ExpansionError>::Err(
                ExpansionError::ArgumentNumber(iargs@.len() as usize, sp),
            ) && *final(y) == *old(y))
            &&& (iargs@.len() == 0 && fuel >= 1 && !old(y).files@.contains_key(
                spec_input_target(old(y).state, ipath@),
            ) ==> (r matches Err(e) && e matches ExpansionError::InputMissing(p, sp2) && p@
                == spec_input_target(old(y).state, ipath@) && sp2 == sp))
        }),
        (o matches OutInternal::Box(sp, bparams, bargs, bkind, bname) ==> ((bargs@.len() < 1
            || bargs@.len() >= 3) ==> r == Result::<Rope, ExpansionError>::Err(
            ExpansionError::ArgumentNumber(bargs@.len() as usize, sp),
        ) && *final(y) == *old(y))),
        (o matches OutInternal::Fact(sp, fparams, fargs, fname, fnonum) ==> ((fargs@.len() < 1
            || fargs@.len() >= 3) ==> r == Result::<Rope, ExpansionError>::Err(
            ExpansionError::ArgumentNumber(fargs@.len() as usize, sp),
        ) && *final(y) == *old(y))),
        (o matches OutInternal::Proof(sp, pparams, pargs) ==> (pargs@.len() != 1 ==> r == Result::<
            Rope,
            ExpansionError,
        >::Err(ExpansionError::ArgumentNumber(pargs@.len() as usize, sp)) && *final(y) == *old(y))),
        (o matches OutInternal::Template(sp, tp, margs) ==> (margs@.len() != 2 ==> r == Result::<
            Rope,
            ExpansionError,
        >::Err(ExpansionError::ArgumentNumber(margs@.len() as usize, sp)) && *final(y) == *old(y))),
        (o matches OutInternal::P(sp, margs) ==> (margs@.len() != 1 ==> r == Result::<
            Rope,
            ExpansionError,
        >::Err(ExpansionError::ArgumentNumber(margs@.len() as usize, sp)) && *final(y) == *old(y))),
        (o matches OutInternal::SetDomain(sp, dm, margs) ==> (margs@.len() != 1 ==> r == Result::<
            Rope,
            ExpansionError,
        >::Err(ExpansionError::ArgumentNumber(margs@.len() as usize, sp)) && *final(y) == *old(y))),
        (o matches OutInternal::Fleqn(sp, margs) ==> (margs@.len() != 1 ==> r == Result::<
            Rope,
            ExpansionError,
        >::Err(ExpansionError::ArgumentNumber(margs@.len() as usize, sp)) && *final(y) == *old(y))),
        (o matches OutInternal::CopyAll(sp, cf, ct, margs) ==> (margs@.len() != 0 ==> r
            == Result::<Rope, ExpansionError>::Err(
            ExpansionError::ArgumentNumber(margs@.len() as usize, sp),
        ) && *final(y) == *old(y))),
        (o matches OutInternal::Enclose(sp, margs, pre, post) ==> (margs@.len() != 1 ==> r
            == Result::<Rope, ExpansionError>::Err(
            ExpansionError::ArgumentNumber(margs@.len() as usize, sp),
        ) && *final(y) == *old(y))),
        (o matches OutInternal::Enclose2(sp, margs, pre, mid, post) ==> (margs@.len() != 2 ==> r
            == Result::<Rope, ExpansionError>::Err(
            ExpansionError::ArgumentNumber(margs@.len() as usize, sp),
        ) && *final(y) == *old(y))),
        (o matches OutInternal::Link(sp, margs) ==> (margs@.len() != 2 ==> r == Result::<
            Rope,
            ExpansionError,
        >::Err(ExpansionError::ArgumentNumber(margs@.len() as usize, sp)) && *final(y) == *old(y))),
        (o matches OutInternal::Captioned(sp, margs) ==> (margs@.len() != 2 ==> r == Result::<
            Rope,
            ExpansionError,
        >::Err(ExpansionError::ArgumentNumber(margs@.len() as usize, sp)) && *final(y) == *old(y))),
        (o matches OutInternal::ProofPart(sp, margs) ==> (margs@.len() != 2 ==> r == Result::<
            Rope,
            ExpansionError,
        >::Err(ExpansionError::ArgumentNumber(margs@.len() as usize, sp)) && *final(y) == *old(y))),
        (o matches OutInternal::Cases(sp, margs) ==> (margs@.len() != 1 ==> r == Result::<
            Rope,
            ExpansionError,
        >::Err(ExpansionError::ArgumentNumber(margs@.len() as usize, sp)) && *final(y) == *old(y))),
        (o matches OutInternal::Case(sp, cp, margs) ==> ((margs@.len() < 1 || margs@.len() >= 3)
            ==> r == Result::<Rope, ExpansionError>::Err(
            ExpansionError::ArgumentNumber(margs@.len() as usize, sp),
        ) && *final(y) == *old(y))),
        (o matches OutInternal::SetMathId(sp, mp, margs) ==> (margs@.len() != 0 ==> r == Result::<
            Rope,
            ExpansionError,
        >::Err(ExpansionError::ArgumentNumber(margs@.len() as usize, sp)) && *final(y) == *old(y))),
        (o matches OutInternal::MathMacro(sp, mp, margs, mid2, mtex) ==> (margs@.len() != 0 ==> r
            == Result::<Rope, ExpansionError>::Err(
            ExpansionError::ArgumentNumber(margs@.len() as usize, sp),
        ) && *final(y) == *old(y))),
        (o matches OutInternal::EncloseMath(sp, margs, mi, pre, post) ==> (margs@.len() != 1 ==> r
            == Result::<Rope, ExpansionError>::Err(
            ExpansionError::ArgumentNumber(margs@.len() as usize, sp),
        ) && *final(y) == *old(y))),
        (o matches OutInternal::MathSetBuilder(sp, mp, margs) ==> (margs@.len() != 2 ==> r
            == Result::<Rope, ExpansionError>::Err(
            ExpansionError::ArgumentNumber(margs@.len() as usize, sp),
        ) && *final(y) == *old(y))),
        (o matches OutInternal::MathGroupingParens(sp, mp, margs) ==> (margs@.len() != 1 ==> r
            == Result::<Rope, ExpansionError>::Err(
            ExpansionError::ArgumentNumber(margs@.len() as usize, sp),
        ) && *final(y) == *old(y))),
        (o matches OutInternal::MathFunctionParens(sp, mp, margs) ==> (margs@.len() != 1 ==> r
            == Result::<Rope, ExpansionError>::Err(
            ExpansionError::ArgumentNumber(margs@.len() as usize, sp),
        ) && *final(y) == *old(y))),
    decreases fuel, 2int,
{
    match o {
        OutInternal::Text(t, _tr) => {
            let rope = rope_from_str(t.as_str());
            proof {
                assert(flat_text(o) == Some(t@));
                assert(rope_text(rope) == t@);
            }
            Ok(rope)
        },
        OutInternal::Many(outs) => {
            let ghost outs_snap = outs@;
            let ghost lit = texts_concat(outs@, 0) is Some && fuel >= 1;
            let ropes = match expand_seq(outs, y, fuel) {
                Err(e) => {
                    return Err(e);
                },
                Ok(rs) => rs,
            };
            let ghost ropes0 = ropes@;
            let mut r = rope_new();
            let mut rem = ropes;
            while rem.len() > 0
                invariant
                    lit == (texts_concat(outs_snap, 0) is Some && fuel >= 1),
                    ropes0.len() == outs_snap.len(),
                    rem@.len() <= ropes0.len(),
                    rem@ =~= ropes0.subrange(
                        ropes0.len() - rem@.len(),
                        ropes0.len() as int,
                    ),
                    lit ==> texts_concat(outs_snap, ropes0.len() - rem@.len()) is Some,
                    lit ==> rope_text(r) + texts_concat(
                        outs_snap,
                        ropes0.len() - rem@.len(),
                    ).unwrap() == texts_concat(outs_snap, 0).unwrap(),
                    lit ==> forall|i: int|
                        0 <= i < outs_snap.len() ==> text_run(outs_snap[i]) == Some(
                            rope_text(#[trigger] ropes0[i]),
                        ),
                decreases rem@.len(),
            {
                let ghost k = ropes0.len() - rem@.len();
                let x = rem.remove(0);
                proof {
                    assert(x == ropes0[k]);
                }
                let ghost r_pre = rope_text(r);
                rope_append(&mut r, x);
                proof {
                    if lit {
                        lemma_texts_concat_index(outs_snap, 0, k);
                        assert(texts_concat(outs_snap, k) == Some(
                            text_run(outs_snap[k]).unwrap() + texts_concat(
                                outs_snap,
                                k + 1,
                            ).unwrap(),
                        ));
                        assert((r_pre + rope_text(ropes0[k])) + texts_concat(
                            outs_snap,
                            k + 1,
                        ).unwrap() =~= r_pre + (rope_text(ropes0[k]) + texts_concat(
                            outs_snap,
                            k + 1,
                        ).unwrap()));
                    }
                    assert(rem@ =~= ropes0.subrange(
                        ropes0.len() - rem@.len(),
                        ropes0.len() as int,
                    ));
                }
            }
            proof {
                if lit {
                    assert(rope_text(r) + texts_concat(outs_snap, outs_snap.len() as int).unwrap()
                        =~= rope_text(r));
                    assert(rope_text(r) == texts_concat(outs_snap, 0).unwrap());
                    assert(flat_text(o) == texts_concat(outs_snap, 0));
                }
            }
            Ok(r)
        },
        OutInternal::EmptyMacro(span, args) => {
            match arguments_exact(0, args.len(), span) {
                Err(e) => Err(e),
                Ok(()) => Ok(rope_new()),
            }
        },
        OutInternal::Const(span, args, text) => {
            match arguments_exact(0, args.len(), span) {
                Err(e) => Err(e),
                Ok(()) => Ok(rope_from_str(text.as_str())),
            }
        },
        OutInternal::Cwd(span, args) => {
            match arguments_exact(0, args.len(), span) {
                Err(e) => Err(e),
                Ok(()) => {
                    let c = y.state.cwd();
                    Ok(rope_from_str(c.as_str()))
                },
            }
        },
        OutInternal::HtmlTag(span, tag, attrs, args) => {
            let template = match html_tag(tag.as_str(), &attrs, args.len(), span) {
                Err(e) => {
                    return Err(e);
                },
                Ok(t) => t,
            };
            bind_and_expand(template, args, span, y, fuel)
        },
        OutInternal::P(span, args) => {
            match arguments_exact(1, args.len(), span) {
                Err(e) => {
                    return Err(e);
                },
                Ok(()) => {},
            }
            let ghost y0 = *y;
            let ropes = match expand_seq(args, y, fuel) {
                Err(e) => {
                    return Err(e);
                },
                Ok(rs) => rs,
            };
            let mut p_html = "<p>".to_owned();
            let inner = rope_to_string(&ropes[0]);
            crate::text::push_string(&mut p_html, &inner);
            crate::text::push_str(&mut p_html, "</p>");
            let ghost y_a = *y;
            create_boxless_previews(y, p_html.as_str());
            proof {
                lemma_frame_trans(y0, y_a, *y);
            }
            Ok(rope_from_str(p_html.as_str()))
        },
        OutInternal::Input(span, path, args) => input_arm(span, path, args.len(), y, fuel),
        OutInternal::Output(span, path, args, tee) => output_arm(span, path, args, tee, y, fuel),
        OutInternal::CopyAll(span, from, to, args) => {
            match arguments_exact(0, args.len(), span) {
                Err(e) => {
                    return Err(e);
                },
                Ok(()) => {},
            }
            if y.state.second_iteration {
                let mut target = "build/".to_owned();
                crate::text::push_string(&mut target, &to);
                let ghost pre = y.copies@;
                y.copies.push(CopyItem { from, to: target });
                proof {
                    assert(pre =~= y.copies@.subrange(0, pre.len() as int));
                }
            }
            Ok(rope_new())
        },
        OutInternal::Template(span, _params, args) => {
            match arguments_exact(2, args.len(), span) {
                Err(e) => {
                    return Err(e);
                },
                Ok(()) => {},
            }
            let mut t: Vec<Out> = Vec::new();
            t.push(Out::Text(TEMPLATE_HEAD.to_owned()));
            t.push(Out::Argument(0));
            t.push(Out::Text(TEMPLATE_MID.to_owned()));
            t.push(Out::Argument(1));
            t.push(Out::Text(TEMPLATE_FOOT.to_owned()));
            bind_and_expand(Out::Many(t), args, span, y, fuel)
        },
        OutInternal::TeX(span, args, display) => tex_arm(span, args, display, y, fuel),
        OutInternal::Fleqn(span, args) => {
            match arguments_exact(1, args.len(), span) {
                Err(e) => {
                    return Err(e);
                },
                Ok(()) => {},
            }
            y.state.fleqn = !y.state.fleqn;
            let res = expand_seq(args, y, fuel);
            y.state.fleqn = !y.state.fleqn;
            match res {
                Err(e) => Err(e),
                Ok(ropes) => {
                    let mut rem = ropes;
                    match rem.pop() {
                        Some(r) => Ok(r),
                        None => Ok(rope_new()),
                    }
                },
            }
        },
        OutInternal::SetDomain(span, _param, args) => {
            match arguments_exact(1, args.len(), span) {
                Err(e) => {
                    return Err(e);
                },
                Ok(()) => {},
            }
            let ropes = match expand_seq(args, y, fuel) {
                Err(e) => {
                    return Err(e);
                },
                Ok(rs) => rs,
            };
            y.state.domain = rope_to_string(&ropes[0]);
            Ok(rope_new())
        },
        OutInternal::HSection(span, params, args, no_numbering) => {
            hsection_arm(span, params.0, args, no_numbering, y, fuel)
        },
        OutInternal::Toggled(span, params, args, invisible, visible) => {
            match arguments_exact(1, args.len(), span) {
                Err(e) => {
                    return Err(e);
                },
                Ok(()) => {},
            }
            let mut part1 = "<button class=\"btn_toggle no\" id=\"btn_toggle_".to_owned();
            crate::text::push_string(&mut part1, &params.0);
            crate::text::push_str(&mut part1, "\">");
            crate::text::push_string(&mut part1, &invisible);
            crate::text::push_str(
                &mut part1,
                "</button><div class=\"toggled\" style=\"display: none\">",
            );
            let mut part2 = "</div>\n    <script>\n        (()=>{\n            let shown = false;\n            const btn = document.querySelector(\"#btn_toggle_".to_owned();
            crate::text::push_string(&mut part2, &params.0);
            crate::text::push_str(
                &mut part2,
                "\");\n            const sol = btn.nextSibling;\n            btn.addEventListener(\"click\", e => {\n                sol.style.display = shown ? \"none\" : \"block\";\n                btn.textContent = shown ? \"",
            );
            crate::text::push_string(&mut part2, &invisible);
            crate::text::push_str(&mut part2, "\" : \"");
            crate::text::push_string(&mut part2, &visible);
            crate::text::push_str(
                &mut part2,
                "\";\n                btn.classList.toggle(\"yes\", !shown);\n                btn.classList.toggle(\"no\", shown);\n                shown = !shown;\n            });\n        })()\n    </script>",
            );
            let mut t: Vec<Out> = Vec::new();
            t.push(Out::Text(part1));
            t.push(Out::Argument(0));
            t.push(Out::Text(part2));
            bind_and_expand(Out::Many(t), args, span, y, fuel)
        },
        OutInternal::ChapterNav(span, args) => {
            match arguments_exact(0, args.len(), span) {
                Err(e) => {
                    return Err(e);
                },
                Ok(()) => {},
            }
            if !y.state.second_iteration {
                return Ok(rope_new());
            }
            let (prev_id, next_id): (Option<String>, Option<String>) = {
                let (p, n) = y.state.sticky_state.hsections_structure.previous_and_next_ids();
                let po = match p {
                    Some(x) => Some(x.to_owned()),
                    None => None,
                };
                let no = match n {
                    Some(x) => Some(x.to_owned()),
                    None => None,
                };
                (po, no)
            };
            let prev_link: String = match prev_id {
                None => String::new(),
                Some(id) => {
                    let title: String = match y.state.sticky_state.hsections.get(id.as_str()) {
                        None => {
                            return Err(ExpansionError::UnknownId(span));
                        },
                        Some(info) => info.title.clone(),
                    };
                    let url = match y.state.resolve_id_to_url(id.as_str(), span) {
                        Err(e) => {
                            return Err(e);
                        },
                        Ok(u) => u,
                    };
                    let mut l = "<a href=\"".to_owned();
                    crate::text::push_string(&mut l, &url);
                    crate::text::push_str(&mut l, "\">");
                    crate::text::push_string(&mut l, &title);
                    crate::text::push_str(&mut l, "</a>");
                    l
                },
            };
            let next_link: String = match next_id {
                None => String::new(),
                Some(id) => {
                    let title: String = match y.state.sticky_state.hsections.get(id.as_str()) {
                        None => {
                            return Err(ExpansionError::UnknownId(span));
                        },
                        Some(info) => info.title.clone(),
                    };
                    let url = match y.state.resolve_id_to_url(id.as_str(), span) {
                        Err(e) => {
                            return Err(e);
                        },
                        Ok(u) => u,
                    };
                    let mut l = "<a href=\"".to_owned();
                    crate::text::push_string(&mut l, &url);
                    crate::text::push_str(&mut l, "\">");
                    crate::text::push_string(&mut l, &title);
                    crate::text::push_str(&mut l, "</a>");
                    l
                },
            };
            let toc_url = match y.state.resolve_id_to_url("toc", span) {
                Err(e) => {
                    return Err(e);
                },
                Ok(u) => u,
            };
            let mut nav = "<nav class=\"chapter_navigation slightlywide\">\n    <div class=\"previous_chapter\">\n        ".to_owned();
            crate::text::push_string(&mut nav, &prev_link);
            crate::text::push_str(
                &mut nav,
                "\n    </div>\n    <div class=\"navigation_to_toc\"><a href=\"",
            );
            crate::text::push_string(&mut nav, &toc_url);
            crate::text::push_str(
                &mut nav,
                "\">Table of Contents</a></div>\n    <div class=\"next_chapter\">\n        ",
            );
            crate::text::push_string(&mut nav, &next_link);
            crate::text::push_str(&mut nav, "\n    </div>\n</nav>");
            Ok(rope_from_str(nav.as_str()))
        },
        OutInternal::Box(span, params, args, kind, name) => {
            box_arm(span, params.0, args, kind, name, y, fuel)
        },
        OutInternal::Fact(span, params, args, name, no_numbering) => {
            fact_arm(span, params.0, args, name, no_numbering, y, fuel)
        },
        OutInternal::Proof(span, params, args) => proof_arm(span, params.0, args, y, fuel),
        OutInternal::Cref(span, args) => cref_arm(span, args, y, fuel),
        OutInternal::Define(span, params, args, custom_text) => {
            define_arm(span, params.0, args, custom_text, y, fuel)
        },
        OutInternal::ReferenceDefined(span, args, capitalize, pluralize, fakedef) => {
            refdef_arm(span, args, capitalize, pluralize, fakedef, y, fuel)
        },
        OutInternal::Enclose(span, args, pre, post) => {
            match arguments_exact(1, args.len(), span) {
                Err(e) => {
                    return Err(e);
                },
                Ok(()) => {},
            }
            let mut t: Vec<Out> = Vec::new();
            t.push(Out::Text(pre));
            t.push(Out::Argument(0));
            t.push(Out::Text(post));
            bind_and_expand(Out::Many(t), args, span, y, fuel)
        },
        OutInternal::Enclose2(span, args, pre, mid, post) => {
            match arguments_exact(2, args.len(), span) {
                Err(e) => {
                    return Err(e);
                },
                Ok(()) => {},
            }
            let mut t: Vec<Out> = Vec::new();
            t.push(Out::Text(pre));
            t.push(Out::Argument(0));
            t.push(Out::Text(mid));
            t.push(Out::Argument(1));
            t.push(Out::Text(post));
            bind_and_expand(Out::Many(t), args, span, y, fuel)
        },
        OutInternal::Link(span, args) => {
            match arguments_exact(2, args.len(), span) {
                Err(e) => {
                    return Err(e);
                },
                Ok(()) => {},
            }
            let mut t: Vec<Out> = Vec::new();
            t.push(Out::Text("<a class=\"outlink\" href=\"".to_owned()));
            t.push(Out::Argument(1));
            t.push(Out::Text("\">".to_owned()));
            t.push(Out::Argument(0));
            t.push(Out::Text("</a>".to_owned()));
            bind_and_expand(Out::Many(t), args, span, y, fuel)
        },
        OutInternal::Captioned(span, args) => {
            match arguments_exact(2, args.len(), span) {
                Err(e) => {
                    return Err(e);
                },
                Ok(()) => {},
            }
            let mut t: Vec<Out> = Vec::new();
            t.push(Out::Text("<div class=\"captioned\">".to_owned()));
            t.push(Out::Argument(0));
            t.push(Out::Text("<div class=\"caption\">".to_owned()));
            t.push(Out::Argument(1));
            t.push(Out::Text("</div></div>".to_owned()));
            bind_and_expand(Out::Many(t), args, span, y, fuel)
        },
        OutInternal::SetMathId(span, params, args) => {
            match arguments_exact(0, args.len(), span) {
                Err(e) => {
                    return Err(e);
                },
                Ok(()) => {},
            }
            if y.state.second_iteration {
                return Ok(rope_new());
            }
            let existed = y.state.sticky_state.math_definitions.contains_key(params.0.as_str());
            y.state.sticky_state.math_definitions.insert(params.0.clone(), params.1);
            if existed {
                Err(ExpansionError::DuplicateMathId(span, params.0))
            } else {
                Ok(rope_new())
            }
        },
        OutInternal::MathMacro(span, params, args, math_id, tex) => {
            match arguments_exact(0, args.len(), span) {
                Err(e) => {
                    return Err(e);
                },
                Ok(()) => {},
            }
            if !y.state.second_iteration {
                return Ok(rope_new());
            }
            let id: String = match y.state.sticky_state.math_definitions.get(math_id.as_str()) {
                None => {
                    return Err(ExpansionError::UnknownMathId(span, math_id));
                },
                Some(i) => i.clone(),
            };
            let url = match y.state.resolve_id_to_url(id.as_str(), span) {
                Err(e) => {
                    return Err(e);
                },
                Ok(u) => u,
            };
            let preview_url = y.state.id_to_preview_url(id.as_str());
            let mut out = "\\htmlData{preview=".to_owned();
            crate::text::push_string(&mut out, &preview_url);
            crate::text::push_str(&mut out, "}{");
            if params.0 {
                crate::text::push_string(&mut out, &tex);
                crate::text::push_str(&mut out, "}");
            } else {
                crate::text::push_str(&mut out, "\\href{");
                crate::text::push_string(&mut out, &url);
                crate::text::push_str(&mut out, "}{");
                crate::text::push_string(&mut out, &tex);
                crate::text::push_str(&mut out, "}}");
            }
            Ok(rope_from_str(out.as_str()))
        },
        OutInternal::EncloseMath(span, args, math_id, pre, post) => {
            match arguments_exact(1, args.len(), span) {
                Err(e) => {
                    return Err(e);
                },
                Ok(()) => {},
            }
            if y.state.second_iteration {
                let id: String = match y.state.sticky_state.math_definitions.get(
                    math_id.as_str(),
                ) {
                    None => {
                        return Err(ExpansionError::UnknownMathId(span, math_id));
                    },
                    Some(i) => i.clone(),
                };
                let url = match y.state.resolve_id_to_url(id.as_str(), span) {
                    Err(e) => {
                        return Err(e);
                    },
                    Ok(u) => u,
                };
                let preview_url = y.state.id_to_preview_url(id.as_str());
                let mut pre_tex = "\\htmlData{preview=".to_owned();
                crate::text::push_string(&mut pre_tex, &preview_url);
                crate::text::push_str(&mut pre_tex, "}{\\href{");
                crate::text::push_string(&mut pre_tex, &url);
                crate::text::push_str(&mut pre_tex, "}{");
                let mut post_tex = pre_tex.clone();
                crate::text::push_string(&mut pre_tex, &pre);
                crate::text::push_str(&mut pre_tex, "}}");
                crate::text::push_string(&mut post_tex, &post);
                crate::text::push_str(&mut post_tex, "}}");
                let mut t: Vec<Out> = Vec::new();
                t.push(Out::Text(pre_tex));
                t.push(Out::Argument(0));
                t.push(Out::Text(post_tex));
                bind_and_expand(Out::Many(t), args, span, y, fuel)
            } else {
                bind_and_expand(Out::Argument(0), args, span, y, fuel)
            }
        },
        OutInternal::EncloseFunctionApplication(span, params, args, math_id, name_tex) => {
            let len = args.len();
            if y.state.second_iteration {
                let id: String = match y.state.sticky_state.math_definitions.get(
                    math_id.as_str(),
                ) {
                    None => {
                        return Err(ExpansionError::UnknownMathId(span, math_id));
                    },
                    Some(i) => i.clone(),
                };
                let url = match y.state.resolve_id_to_url(id.as_str(), span) {
                    Err(e) => {
                        return Err(e);
                    },
                    Ok(u) => u,
                };
                let preview_url = y.state.id_to_preview_url(id.as_str());
                let mut head = "\\htmlData{preview=".to_owned();
                crate::text::push_string(&mut head, &preview_url);
                crate::text::push_str(&mut head, "}{\\href{");
                crate::text::push_string(&mut head, &url);
                crate::text::push_str(&mut head, "}{");
                crate::text::push_string(&mut head, &name_tex);
                crate::text::push_str(&mut head, "}}");
                let mut inner: Vec<Out> = Vec::new();
                let mut i: usize = 0;
                while i < len
                    invariant
                        i <= len,
                    decreases len - i,
                {
                    inner.push(Out::Argument(i));
                    i = i + 1;
                }
                let mut t: Vec<Out> = Vec::new();
                t.push(Out::Text(head));
                t.push(Out::MathFunctionParens(params, inner));
                bind_and_expand(Out::Many(t), args, span, y, fuel)
            } else {
                bind_and_expand(Out::Argument(0), args, span, y, fuel)
            }
        },
        OutInternal::MathSet(span, params, args) => {
            let len = args.len();
            if y.state.second_iteration {
                let id: String = match y.state.sticky_state.math_definitions.get("set") {
                    None => {
                        return Err(ExpansionError::UnknownMathId(span, "set".to_owned()));
                    },
                    Some(i) => i.clone(),
                };
                let url = match y.state.resolve_id_to_url(id.as_str(), span) {
                    Err(e) => {
                        return Err(e);
                    },
                    Ok(u) => u,
                };
                let preview_url = y.state.id_to_preview_url(id.as_str());
                if len == 0 {
                    let mut out = "\\htmlData{preview=".to_owned();
                    crate::text::push_string(&mut out, &preview_url);
                    crate::text::push_str(&mut out, "}{\\href{");
                    crate::text::push_string(&mut out, &url);
                    crate::text::push_str(&mut out, "}{\\emptyset}}");
                    Ok(rope_from_str(out.as_str()))
                } else {
                    let (sl, sr) = sizing_level(params.0);
                    let mut left = " ".to_owned();
                    crate::text::push_string(&mut left, &sl);
                    crate::text::push_str(&mut left, "\\lbrace ");
                    let mut right = " ".to_owned();
                    crate::text::push_string(&mut right, &sr);
                    crate::text::push_str(&mut right, "\\rbrace ");
                    let mut t: Vec<Out> = Vec::new();
                    t.push(Out::Text(left));
                    let mut i: usize = 0;
                    while i < len
                        invariant
                            i <= len,
                        decreases len - i,
                    {
                        if i != 0 {
                            t.push(Out::Text(", \\allowbreak".to_owned()));
                        }
                        t.push(Out::Argument(i));
                        i = i + 1;
                    }
                    t.push(Out::Text(right));
                    bind_and_expand(Out::Many(t), args, span, y, fuel)
                }
            } else {
                let mut t: Vec<Out> = Vec::new();
                let mut i: usize = 0;
                while i < len
                    invariant
                        i <= len,
                    decreases len - i,
                {
                    t.push(Out::Argument(i));
                    i = i + 1;
                }
                bind_and_expand(Out::Many(t), args, span, y, fuel)
            }
        },
        OutInternal::MathGroupingParens(span, params, args) => {
            match arguments_exact(1, args.len(), span) {
                Err(e) => {
                    return Err(e);
                },
                Ok(()) => {},
            }
            let (sl, sr) = sizing_level(params.0);
            let mut left = " ".to_owned();
            crate::text::push_string(&mut left, &sl);
            crate::text::push_str(&mut left, "( ");
            let mut right = " ".to_owned();
            crate::text::push_string(&mut right, &sr);
            crate::text::push_str(&mut right, ") ");
            let mut t: Vec<Out> = Vec::new();
            t.push(Out::Text(left));
            t.push(Out::Argument(0));
            t.push(Out::Text(right));
            bind_and_expand(Out::Many(t), args, span, y, fuel)
        },
        OutInternal::MathFunctionParens(span, params, args) => {
            match arguments_exact(1, args.len(), span) {
                Err(e) => {
                    return Err(e);
                },
                Ok(()) => {},
            }
            let (sl, sr) = sizing_level(params.0);
            let mut left = " ".to_owned();
            crate::text::push_string(&mut left, &sl);
            crate::text::push_str(&mut left, "( ");
            let mut right = " ".to_owned();
            crate::text::push_string(&mut right, &sr);
            crate::text::push_str(&mut right, ") ");
            let mut t: Vec<Out> = Vec::new();
            t.push(Out::Text(left));
            t.push(Out::Argument(0));
            t.push(Out::Text(right));
            bind_and_expand(Out::Many(t), args, span, y, fuel)
        },
        OutInternal::MathSetBuilder(span, params, args) => {
            match arguments_exact(2, args.len(), span) {
                Err(e) => {
                    return Err(e);
                },
                Ok(()) => {},
            }
            let (sl, sr) = sizing_level(params.0);
            let mut left = sl;
            crate::text::push_str(&mut left, "\\lbrace ");
            let mut right = " ".to_owned();
            crate::text::push_string(&mut right, &sr);
            crate::text::push_str(&mut right, "\\rbrace ");
            let mut t: Vec<Out> = Vec::new();
            t.push(Out::Text(left));
            t.push(Out::Argument(0));
            t.push(Out::Text("\\mid".to_owned()));
            t.push(Out::Argument(1));
            t.push(Out::Text(right));
            bind_and_expand(Out::Many(t), args, span, y, fuel)
        },
        OutInternal::MathEnv(span, args, env) => {
            let len = args.len();
            let mut begin = "\\begin{".to_owned();
            crate::text::push_string(&mut begin, &env);
            crate::text::push_str(&mut begin, "}");
            let mut end = "\\end{".to_owned();
            crate::text::push_string(&mut end, &env);
            crate::text::push_str(&mut end, "}");
            let mut inner: Vec<Out> = Vec::new();
            inner.push(Out::Text(begin));
            let mut i: usize = 0;
            while i < len
                invariant
                    i <= len,
                decreases len - i,
            {
                if i != 0 {
                    inner.push(Out::Text("\\\\\n".to_owned()));
                }
                inner.push(Out::Argument(i));
                i = i + 1;
            }
            inner.push(Out::Text(end));
            let mut tex_args: Vec<Out> = Vec::new();
            tex_args.push(Out::Many(inner));
            bind_and_expand(Out::TeX(tex_args, true), args, span, y, fuel)
        },
        OutInternal::Cases(span, args) => {
            match arguments_exact(1, args.len(), span) {
                Err(e) => {
                    return Err(e);
                },
                Ok(()) => {},
            }
            y.state.cases.push(0);
            let mut t: Vec<Out> = Vec::new();
            t.push(Out::Text("<div class=\"cases\">".to_owned()));
            t.push(Out::Argument(0));
            t.push(Out::Text("</div>".to_owned()));
            let res = bind_and_expand(Out::Many(t), args, span, y, fuel);
            let _ = y.state.cases.pop();
            res
        },
        OutInternal::Case(span, params, args) => {
            match arguments_gte(1, args.len(), span) {
                Err(e) => {
                    return Err(e);
                },
                Ok(()) => {},
            }
            match arguments_lt(3, args.len(), span) {
                Err(e) => {
                    return Err(e);
                },
                Ok(()) => {},
            }
            let n = args.len();
            let depth = y.state.cases.len();
            if depth == 0 {
                return Err(ExpansionError::CaseNotInCases(span));
            }
            let last = y.state.cases[depth - 1];
            if last < usize::MAX {
                vec_set_usize(&mut y.state.cases, depth - 1, last + 1);
            }
            let numbering = case_numbering(&y.state.cases);
            let id = params.0;
            let linkable = id.as_str().unicode_len() != 0;
            let href: String = if linkable {
                y.state.sticky_state.cases.insert(id.clone(), numbering.clone());
                match y.state.register_id(id.as_str(), CrefKind::Case, span) {
                    Err(e) => {
                        return Err(e);
                    },
                    Ok(u) => u,
                }
            } else {
                String::new()
            };
            let mut t: Vec<Out> = Vec::new();
            t.push(
                Out::Text("<div class=\"proof_part_title\"><span class=\"case_name\">".to_owned()),
            );
            if linkable {
                let mut open_link = "<a href=\"".to_owned();
                crate::text::push_string(&mut open_link, &href);
                crate::text::push_str(&mut open_link, "\" id=\"");
                crate::text::push_string(&mut open_link, &id);
                crate::text::push_str(&mut open_link, "\">");
                t.push(Out::Text(open_link));
            } else {
                t.push(Out::Text(String::new()));
            }
            let mut case_title = "Case ".to_owned();
            crate::text::push_string(&mut case_title, &numbering);
            crate::text::push_str(&mut case_title, ":</span> ");
            t.push(Out::Text(case_title));
            if n >= 2 {
                t.push(Out::Argument(0));
            } else {
                t.push(Out::Text(String::new()));
            }
            if linkable {
                t.push(Out::Text("</a>".to_owned()));
            } else {
                t.push(Out::Text(String::new()));
            }
            t.push(Out::Text("</div>".to_owned()));
            t.push(Out::Text("<div class=\"proof_part_body\">".to_owned()));
            t.push(Out::Argument(n - 1));
            t.push(Out::Text("</div>".to_owned()));
            bind_and_expand(Out::Many(t), args, span, y, fuel)
        },
        OutInternal::Drop(span, args) => {
            let _ = span;
            match expand_seq(args, y, fuel) {
                Err(e) => Err(e),
                Ok(_) => Ok(rope_new()),
            }
        },
        OutInternal::ProofPart(span, args) => {
            match arguments_exact(2, args.len(), span) {
                Err(e) => {
                    return Err(e);
                },
                Ok(()) => {},
            }
            let mut t: Vec<Out> = Vec::new();
            t.push(
                Out::Text(
                    "<div class=\"proof_part\"><div class=\"proof_part_title\">".to_owned(),
                ),
            );
            t.push(Out::Argument(0));
            t.push(Out::Text("</div><div class=\"proof_part_body\">".to_owned()));
            t.push(Out::Argument(1));
            t.push(Out::Text("</div></div>".to_owned()));
            bind_and_expand(Out::Many(t), args, span, y, fuel)
        },
    }
}

const TEMPLATE_HEAD: &'static str = "<!DOCTYPE html>\n<html>\n    <head>\n        <meta charset=\"UTF-8\">\n        <link rel=\"stylesheet\" href=\"./assets/katex.min.css\">\n        <link rel=\"stylesheet\" href=\"./assets/fonts.css\">\n        <link rel=\"stylesheet\" href=\"./assets/main.css\">\n        <script src=\"./assets/floating-ui.core.min.js\"></script>\n        <script src=\"./assets/floating-ui.dom.min.js\"></script>";

const TEMPLATE_MID: &'static str = "\n    </head>\n    <body>\n";

const TEMPLATE_FOOT: &'static str = "\n        <script src=\"./assets/previews.js\"></script>\n    </body>\n</html>\n";

} // verus!
