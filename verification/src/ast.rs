//! The call trees. `Out` is a macro's template: a tree that refers to the
//! macro's formal arguments by index. `OutInternal` is a bound tree as the
//! parser and the binder produce it: every node stands for itself, and each
//! carries an optional source span for diagnostics.
//!
//! The binder `out_to_internal` replaces every `Argument(i)` of a template
//! with the caller's `i`-th actual subtree. Each actual subtree is consumed
//! when it is bound; the compiled-in templates use every argument index at
//! most once. An index that is out of range, or asked for a second time, is
//! an authoring bug in the macro table and yields that index as an error.
use vstd::prelude::*;
use crate::params::{Template, HSection, BoxParams, Proof, Define, SetMathId, Case, MathMacro,
    Toggled, MathSet, MathSetBuilder};
use crate::state::BoxKind;
use crate::trace::Trace;

verus! {

/// A macro's template tree.
pub enum Out {
    Many(Vec<Out>),
    Argument(usize),
    Text(String),
    TeX(Vec<Out>, bool),
    HtmlTag(String, Vec<(String, String)>, Vec<Out>),
    Input(String, Vec<Out>),
    Output(String, Vec<Out>, bool),
    Cref(Vec<Out>),
    MathFunctionParens(MathSet, Vec<Out>),
}

/// A bound call tree. Most variants carry their source span first and their
/// argument subtrees last.
pub enum OutInternal {
    Many(Vec<OutInternal>),
    Text(String, Trace),
    EmptyMacro(Trace, Vec<OutInternal>),
    Const(Trace, Vec<OutInternal>, String),
    HtmlTag(Trace, String, Vec<(String, String)>, Vec<OutInternal>),
    P(Trace, Vec<OutInternal>),
    Input(Trace, String, Vec<OutInternal>),
    Output(Trace, String, Vec<OutInternal>, bool),
    CopyAll(Trace, String, String, Vec<OutInternal>),
    Template(Trace, Template, Vec<OutInternal>),
    HSection(Trace, HSection, Vec<OutInternal>, bool),
    ChapterNav(Trace, Vec<OutInternal>),
    Box(Trace, BoxParams, Vec<OutInternal>, BoxKind, String),
    Fact(Trace, BoxParams, Vec<OutInternal>, String, bool),
    Proof(Trace, Proof, Vec<OutInternal>),
    Toggled(Trace, Toggled, Vec<OutInternal>, String, String),
    Define(Trace, Define, Vec<OutInternal>, bool),
    Cref(Trace, Vec<OutInternal>),
    TeX(Trace, Vec<OutInternal>, bool),
    Fleqn(Trace, Vec<OutInternal>),
    Cwd(Trace, Vec<OutInternal>),
    SetDomain(Trace, String, Vec<OutInternal>),
    ReferenceDefined(Trace, Vec<OutInternal>, bool, bool, bool),
    SetMathId(Trace, SetMathId, Vec<OutInternal>),
    MathMacro(Trace, MathMacro, Vec<OutInternal>, String, String),
    MathSet(Trace, MathSet, Vec<OutInternal>),
    MathGroupingParens(Trace, MathSet, Vec<OutInternal>),
    MathFunctionParens(Trace, MathSet, Vec<OutInternal>),
    MathSetBuilder(Trace, MathSetBuilder, Vec<OutInternal>),
    MathEnv(Trace, Vec<OutInternal>, String),
    Link(Trace, Vec<OutInternal>),
    Captioned(Trace, Vec<OutInternal>),
    Enclose(Trace, Vec<OutInternal>, String, String),
    Enclose2(Trace, Vec<OutInternal>, String, String, String),
    EncloseMath(Trace, Vec<OutInternal>, String, String, String),
    EncloseFunctionApplication(Trace, MathSet, Vec<OutInternal>, String, String),
    Cases(Trace, Vec<OutInternal>),
    Case(Trace, Case, Vec<OutInternal>),
    Drop(Trace, Vec<OutInternal>),
    ProofPart(Trace, Vec<OutInternal>),
}

impl OutInternal {
    /// The source span a node carries; `Many` carries none.
    pub open spec fn spec_trace(self) -> Trace {
        match self {
            OutInternal::Many(_) => Trace(None),
            OutInternal::Text(_, t) => t,
            OutInternal::EmptyMacro(t, _) => t,
            OutInternal::Const(t, _, _) => t,
            OutInternal::HtmlTag(t, _, _, _) => t,
            OutInternal::P(t, _) => t,
            OutInternal::Input(t, _, _) => t,
            OutInternal::Output(t, _, _, _) => t,
            OutInternal::CopyAll(t, _, _, _) => t,
            OutInternal::Template(t, _, _) => t,
            OutInternal::HSection(t, _, _, _) => t,
            OutInternal::ChapterNav(t, _) => t,
            OutInternal::Box(t, _, _, _, _) => t,
            OutInternal::Fact(t, _, _, _, _) => t,
            OutInternal::Proof(t, _, _) => t,
            OutInternal::Toggled(t, _, _, _, _) => t,
            OutInternal::Define(t, _, _, _) => t,
            OutInternal::Cref(t, _) => t,
            OutInternal::TeX(t, _, _) => t,
            OutInternal::Fleqn(t, _) => t,
            OutInternal::Cwd(t, _) => t,
            OutInternal::SetDomain(t, _, _) => t,
            OutInternal::ReferenceDefined(t, _, _, _, _) => t,
            OutInternal::SetMathId(t, _, _) => t,
            OutInternal::MathMacro(t, _, _, _, _) => t,
            OutInternal::MathSet(t, _, _) => t,
            OutInternal::MathGroupingParens(t, _, _) => t,
            OutInternal::MathFunctionParens(t, _, _) => t,
            OutInternal::MathSetBuilder(t, _, _) => t,
            OutInternal::MathEnv(t, _, _) => t,
            OutInternal::Link(t, _) => t,
            OutInternal::Captioned(t, _) => t,
            OutInternal::Enclose(t, _, _, _) => t,
            OutInternal::Enclose2(t, _, _, _, _) => t,
            OutInternal::EncloseMath(t, _, _, _, _) => t,
            OutInternal::EncloseFunctionApplication(t, _, _, _, _) => t,
            OutInternal::Cases(t, _) => t,
            OutInternal::Case(t, _, _) => t,
            OutInternal::Drop(t, _) => t,
            OutInternal::ProofPart(t, _) => t,
        }
    }

    /// Returns the source span the node carries.
    pub fn trace(&self) -> (r: Trace)
        ensures
            r == self.spec_trace(),
    {
        match self {
            OutInternal::Many(_) => Trace(None),
            OutInternal::Text(_, t) => *t,
            OutInternal::EmptyMacro(t, _) => *t,
            OutInternal::Const(t, _, _) => *t,
            OutInternal::HtmlTag(t, _, _, _) => *t,
            OutInternal::P(t, _) => *t,
            OutInternal::Input(t, _, _) => *t,
            OutInternal::Output(t, _, _, _) => *t,
            OutInternal::CopyAll(t, _, _, _) => *t,
            OutInternal::Template(t, _, _) => *t,
            OutInternal::HSection(t, _, _, _) => *t,
            OutInternal::ChapterNav(t, _) => *t,
            OutInternal::Box(t, _, _, _, _) => *t,
            OutInternal::Fact(t, _, _, _, _) => *t,
            OutInternal::Proof(t, _, _) => *t,
            OutInternal::Toggled(t, _, _, _, _) => *t,
            OutInternal::Define(t, _, _, _) => *t,
            OutInternal::Cref(t, _) => *t,
            OutInternal::TeX(t, _, _) => *t,
            OutInternal::Fleqn(t, _) => *t,
            OutInternal::Cwd(t, _) => *t,
            OutInternal::SetDomain(t, _, _) => *t,
            OutInternal::ReferenceDefined(t, _, _, _, _) => *t,
            OutInternal::SetMathId(t, _, _) => *t,
            OutInternal::MathMacro(t, _, _, _, _) => *t,
            OutInternal::MathSet(t, _, _) => *t,
            OutInternal::MathGroupingParens(t, _, _) => *t,
            OutInternal::MathFunctionParens(t, _, _) => *t,
            OutInternal::MathSetBuilder(t, _, _) => *t,
            OutInternal::MathEnv(t, _, _) => *t,
            OutInternal::Link(t, _) => *t,
            OutInternal::Captioned(t, _) => *t,
            OutInternal::Enclose(t, _, _, _) => *t,
            OutInternal::Enclose2(t, _, _, _, _) => *t,
            OutInternal::EncloseMath(t, _, _, _, _) => *t,
            OutInternal::EncloseFunctionApplication(t, _, _, _, _) => *t,
            OutInternal::Cases(t, _) => *t,
            OutInternal::Case(t, _, _) => *t,
            OutInternal::Drop(t, _) => *t,
            OutInternal::ProofPart(t, _) => *t,
        }
    }
}

/// Whether `r` is the template `t` with every `Argument(i)` replaced by the
/// actual subtree `args[i]`; nodes a template contributes carry no span.
/// An argument slot may be `None` where an earlier part of the same binding
/// already consumed it; a slot a template uses must still be filled.
pub open spec fn is_subst(t: Out, args: Seq<Option<OutInternal>>, r: OutInternal) -> bool
    decreases t,
{
    match t {
        Out::Many(outs) => {
            &&& r matches OutInternal::Many(ch)
            &&& ch@.len() == outs@.len()
            &&& forall|i: int|
                0 <= i < outs@.len() ==> is_subst(outs@[i], args, #[trigger] ch@[i])
        },
        Out::Argument(n) => {
            &&& (n as int) < args.len()
            &&& args[n as int] is Some
            &&& r == args[n as int].unwrap()
        },
        Out::Text(s) => r == OutInternal::Text(s, Trace(None)),
        Out::TeX(a, display) => {
            &&& r matches OutInternal::TeX(tr, ch, d2)
            &&& tr == Trace(None)
            &&& d2 == display
            &&& ch@.len() == a@.len()
            &&& forall|i: int| 0 <= i < a@.len() ==> is_subst(a@[i], args, #[trigger] ch@[i])
        },
        Out::HtmlTag(tag, params, a) => {
            &&& r matches OutInternal::HtmlTag(tr, tag2, params2, ch)
            &&& tr == Trace(None)
            &&& tag2 == tag
            &&& params2 == params
            &&& ch@.len() == a@.len()
            &&& forall|i: int| 0 <= i < a@.len() ==> is_subst(a@[i], args, #[trigger] ch@[i])
        },
        Out::Input(path, a) => {
            &&& r matches OutInternal::Input(tr, p2, ch)
            &&& tr == Trace(None)
            &&& p2 == path
            &&& ch@.len() == a@.len()
            &&& forall|i: int| 0 <= i < a@.len() ==> is_subst(a@[i], args, #[trigger] ch@[i])
        },
        Out::Output(path, a, tee) => {
            &&& r matches OutInternal::Output(tr, p2, ch, tee2)
            &&& tr == Trace(None)
            &&& p2 == path
            &&& tee2 == tee
            &&& ch@.len() == a@.len()
            &&& forall|i: int| 0 <= i < a@.len() ==> is_subst(a@[i], args, #[trigger] ch@[i])
        },
        Out::Cref(a) => {
            &&& r matches OutInternal::Cref(tr, ch)
            &&& tr == Trace(None)
            &&& ch@.len() == a@.len()
            &&& forall|i: int| 0 <= i < a@.len() ==> is_subst(a@[i], args, #[trigger] ch@[i])
        },
        Out::MathFunctionParens(p, a) => {
            &&& r matches OutInternal::MathFunctionParens(tr, p2, ch)
            &&& tr == Trace(None)
            &&& p2 == p
            &&& ch@.len() == a@.len()
            &&& forall|i: int| 0 <= i < a@.len() ==> is_subst(a@[i], args, #[trigger] ch@[i])
        },
    }
}

/// Whether the template `t` mentions `Argument(i)` anywhere.
pub open spec fn mentions_argument(t: Out, n: usize) -> bool
    decreases t,
{
    match t {
        Out::Many(outs) => exists|i: int|
            0 <= i < outs@.len() && mentions_argument(#[trigger] outs@[i], n),
        Out::Argument(m) => m == n,
        Out::Text(_) => false,
        Out::TeX(a, _) => exists|i: int|
            0 <= i < a@.len() && mentions_argument(#[trigger] a@[i], n),
        Out::HtmlTag(_, _, a) => exists|i: int|
            0 <= i < a@.len() && mentions_argument(#[trigger] a@[i], n),
        Out::Input(_, a) => exists|i: int|
            0 <= i < a@.len() && mentions_argument(#[trigger] a@[i], n),
        Out::Output(_, a, _) => exists|i: int|
            0 <= i < a@.len() && mentions_argument(#[trigger] a@[i], n),
        Out::Cref(a) => exists|i: int|
            0 <= i < a@.len() && mentions_argument(#[trigger] a@[i], n),
        Out::MathFunctionParens(_, a) => exists|i: int|
            0 <= i < a@.len() && mentions_argument(#[trigger] a@[i], n),
    }
}

/// Whether `late` is `early` with some argument slots consumed: each slot
/// still filled in `late` holds the value it held in `early`.
pub open spec fn taken_from(late: Seq<Option<OutInternal>>, early: Seq<Option<OutInternal>>) -> bool {
    &&& late.len() == early.len()
    &&& forall|i: int| 0 <= i < late.len() && late[i] is Some ==> late[i] == #[trigger] early[i]
}

/// Binding against consumed slots also counts as binding against the slots
/// they came from.
pub proof fn lemma_subst_monotone(
    t: Out,
    late: Seq<Option<OutInternal>>,
    early: Seq<Option<OutInternal>>,
    r: OutInternal,
)
    requires
        is_subst(t, late, r),
        taken_from(late, early),
    ensures
        is_subst(t, early, r),
    decreases t,
{
    match t {
        Out::Many(outs) => {
            assert forall|i: int| 0 <= i < outs@.len() implies is_subst(
                outs@[i],
                early,
                #[trigger] (r->Many_0)@[i],
            ) by {
                lemma_subst_monotone(outs@[i], late, early, (r->Many_0)@[i]);
            }
        },
        Out::Argument(n) => {},
        Out::Text(_) => {},
        Out::TeX(a, _) => {
            assert forall|i: int| 0 <= i < a@.len() implies is_subst(
                a@[i],
                early,
                #[trigger] (r->TeX_1)@[i],
            ) by {
                lemma_subst_monotone(a@[i], late, early, (r->TeX_1)@[i]);
            }
        },
        Out::HtmlTag(_, _, a) => {
            assert forall|i: int| 0 <= i < a@.len() implies is_subst(
                a@[i],
                early,
                #[trigger] (r->HtmlTag_3)@[i],
            ) by {
                lemma_subst_monotone(a@[i], late, early, (r->HtmlTag_3)@[i]);
            }
        },
        Out::Input(_, a) => {
            assert forall|i: int| 0 <= i < a@.len() implies is_subst(
                a@[i],
                early,
                #[trigger] (r->Input_2)@[i],
            ) by {
                lemma_subst_monotone(a@[i], late, early, (r->Input_2)@[i]);
            }
        },
        Out::Output(_, a, _) => {
            assert forall|i: int| 0 <= i < a@.len() implies is_subst(
                a@[i],
                early,
                #[trigger] (r->Output_2)@[i],
            ) by {
                lemma_subst_monotone(a@[i], late, early, (r->Output_2)@[i]);
            }
        },
        Out::Cref(a) => {
            assert forall|i: int| 0 <= i < a@.len() implies is_subst(
                a@[i],
                early,
                #[trigger] (r->Cref_1)@[i],
            ) by {
                lemma_subst_monotone(a@[i], late, early, (r->Cref_1)@[i]);
            }
        },
        Out::MathFunctionParens(_, a) => {
            assert forall|i: int| 0 <= i < a@.len() implies is_subst(
                a@[i],
                early,
                #[trigger] (r->MathFunctionParens_2)@[i],
            ) by {
                lemma_subst_monotone(a@[i], late, early, (r->MathFunctionParens_2)@[i]);
            }
        },
    }
}

/// Binds the children `outs` of a template node against `args`, in order.
/// Slots it consumes are slots the children mention, and a template whose
/// mentioned slots are all filled, each mentioned at most once, always
/// binds.
fn outs_to_internals(outs: Vec<Out>, args: &mut Vec<Option<OutInternal>>) -> (r: Result<
    Vec<OutInternal>,
    usize,
>)
    ensures
        taken_from(final(args)@, old(args)@),
        match r {
            Ok(ch) => {
                &&& ch@.len() == outs@.len()
                &&& forall|i: int|
                    0 <= i < outs@.len() ==> is_subst(outs@[i], old(args)@, #[trigger] ch@[i])
            },
            Err(i) => mentions_argument(Out::Many(outs), i),
        },
        forall|k: int|
            0 <= k < old(args)@.len() && #[trigger] final(args)@[k] is None ==> old(args)@[k]
                is None || mentions_argument(Out::Many(outs), k as usize),
        (bindable(Out::Many(outs), old(args)@) && linear_template(Out::Many(outs)) ==> (
        r is Ok)),
    decreases outs@,
{
    let ghost outs_snap = outs;
    let ghost args0 = args@;
    if outs.len() == 0 {
        let ch: Vec<OutInternal> = Vec::new();
        return Ok(ch);
    }
    let mut rem = outs;
    let x = rem.remove(0);
    proof {
        assert(x == outs_snap@[0]);
        vstd::seq::axiom_seq_index_decreases(outs_snap@, 0);
        assert(decreases_to!(outs_snap@ => x));
        assert(Out::Many(outs_snap)->Many_0 == outs_snap);
        if bindable(Out::Many(outs_snap), args0) && linear_template(Out::Many(outs_snap)) {
            assert forall|n: usize| #[trigger] mentions_argument(x, n) implies n < args0.len()
                && args0[n as int] is Some by {
                assert(mentions_argument(Out::Many(outs_snap), n));
            }
            assert forall|n: usize| #[trigger] mention_count(x, n) <= 1 by {
                assert(mention_count(Out::Many(outs_snap), n) == mention_count(outs_snap@[0], n)
                    + mention_count_seq(outs_snap@, 1, n));
            }
            assert(bindable(x, args0) && linear_template(x));
        }
    }
    let ghost args_before_rest = args@;
    match out_to_internal(x, args) {
        Err(i) => {
            proof {
                assert(mentions_argument(outs_snap@[0], i));
                assert(exists|w: int|
                    0 <= w < outs_snap@.len() && mentions_argument(#[trigger] outs_snap@[w], i));
                assert(mentions_argument(Out::Many(outs_snap), i));
            }
            Err(i)
        },
        Ok(node) => {
            let ghost args_mid = args@;
            let ghost rem_snap = rem;
            proof {
                assert(rem@ =~= outs_snap@.subrange(1, outs_snap@.len() as int));
                assert(rem@ =~= outs_snap@.drop_first());
                vstd::seq::axiom_seq_subrange_decreases(
                    outs_snap@,
                    1,
                    outs_snap@.len() as int,
                );
                assert(decreases_to!(outs_snap@ => rem@));
                assert(Out::Many(rem_snap)->Many_0 == rem_snap);
                if bindable(Out::Many(outs_snap), args0) && linear_template(
                    Out::Many(outs_snap),
                ) {
                    assert forall|n: usize| #[trigger]
                        mentions_argument(Out::Many(rem_snap), n) implies n < args_mid.len()
                        && args_mid[n as int] is Some by {
                        let w = choose|w: int|
                            0 <= w < rem_snap@.len() && mentions_argument(
                                #[trigger] rem_snap@[w],
                                n,
                            );
                        assert(rem_snap@[w] == outs_snap@[w + 1]);
                        assert(mentions_argument(outs_snap@[w + 1], n));
                        assert(mentions_argument(Out::Many(outs_snap), n));
                        assert(args0[n as int] is Some);
                        if args_mid[n as int] is None {
                            assert(mentions_argument(x, n));
                            lemma_mention_count_pos(x, n);
                            lemma_mention_count_pos(rem_snap@[w], n);
                            lemma_mention_count_seq_pos(rem_snap@, 0, w, n);
                            lemma_mention_count_seq_shift(outs_snap@, n);
                            assert(mention_count_seq(outs_snap@, 0, n) >= 2);
                            assert(mention_count(Out::Many(outs_snap), n) >= 2);
                            assert(false);
                        }
                    }
                    assert forall|n: usize| #[trigger]
                        mention_count(Out::Many(rem_snap), n) <= 1 by {
                        lemma_mention_count_seq_shift(outs_snap@, n);
                        assert(mention_count(Out::Many(rem_snap), n) == mention_count_seq(
                            rem_snap@,
                            0,
                            n,
                        ));
                        assert(mention_count(Out::Many(outs_snap), n) <= 1);
                    }
                    assert(bindable(Out::Many(rem_snap), args_mid));
                    assert(linear_template(Out::Many(rem_snap)));
                }
            }
            let res_rest = outs_to_internals(rem, args);
            proof {
                assert forall|k: int|
                    0 <= k < args0.len() && #[trigger] args@[k] is None implies args0[k] is None
                    || mentions_argument(Out::Many(outs_snap), k as usize) by {
                    if args0[k] is Some {
                        if args_mid[k] is None {
                            assert(mentions_argument(x, k as usize));
                            assert(mentions_argument(Out::Many(outs_snap), k as usize));
                        } else {
                            assert(mentions_argument(Out::Many(rem_snap), k as usize));
                            let v = choose|v: int|
                                0 <= v < rem_snap@.len() && mentions_argument(
                                    #[trigger] rem_snap@[v],
                                    k as usize,
                                );
                            assert(rem_snap@[v] == outs_snap@[v + 1]);
                            assert(mentions_argument(Out::Many(outs_snap), k as usize));
                        }
                    }
                }
            }
            match res_rest {
                Err(i) => {
                    proof {
                        let w = choose|w: int|
                            0 <= w < rem_snap@.len() && mentions_argument(
                                #[trigger] rem_snap@[w],
                                i,
                            );
                        assert(rem_snap@[w] == outs_snap@[w + 1]);
                        assert(mentions_argument(outs_snap@[w + 1], i));
                        assert(exists|v: int|
                            0 <= v < outs_snap@.len() && mentions_argument(
                                #[trigger] outs_snap@[v],
                                i,
                            ));
                        assert(mentions_argument(Out::Many(outs_snap), i));
                    }
                    Err(i)
                },
                Ok(rest) => {
                    let ghost restv = rest@;
                    let mut ch = rest;
                    ch.insert(0, node);
                    proof {
                        lemma_subst_monotone(outs_snap@[0], args0, args0, node);
                        assert forall|i: int| 0 <= i < outs_snap@.len() implies is_subst(
                            outs_snap@[i],
                            args0,
                            #[trigger] ch@[i],
                        ) by {
                            if i == 0 {
                                assert(ch@[0] == node);
                            } else {
                                assert(ch@[i] == restv[i - 1]);
                                assert(rem_snap@[i - 1] == outs_snap@[i]);
                                assert(is_subst(rem_snap@[i - 1], args_mid, restv[i - 1]));
                                lemma_subst_monotone(
                                    rem_snap@[i - 1],
                                    args_mid,
                                    args0,
                                    restv[i - 1],
                                );
                            }
                        }
                        assert forall|ii: int|
                            0 <= ii < args@.len() && args@[ii] is Some implies args@[ii]
                            == args0[ii] by {
                            assert(args@[ii] == args_mid[ii]);
                            assert(args_mid[ii] == args0[ii]);
                        }
                    }
                    Ok(ch)
                },
            }
        },
    }
}

/// Binds a template against the actual argument subtrees: every
/// `Argument(i)` becomes `args[i]`, consuming that slot. An index out of
/// range, or one whose slot was already consumed, is handed back as the
/// error; a template whose mentioned slots are all filled, each mentioned
/// at most once, always binds, and only mentioned slots are consumed.
pub fn out_to_internal(o: Out, args: &mut Vec<Option<OutInternal>>) -> (r: Result<
    OutInternal,
    usize,
>)
    ensures
        taken_from(final(args)@, old(args)@),
        match r {
            Ok(node) => is_subst(o, old(args)@, node),
            Err(i) => mentions_argument(o, i),
        },
        forall|k: int|
            0 <= k < old(args)@.len() && #[trigger] final(args)@[k] is None ==> old(args)@[k]
                is None || mentions_argument(o, k as usize),
        (bindable(o, old(args)@) && linear_template(o) ==> (r is Ok)),
    decreases o,
{
    let ghost o_snap = o;
    let ghost args0 = args@;
    match o {
        Out::Many(a) => {
            let ghost a_snap = a;
            proof {
                assert(Out::Many(a_snap)->Many_0 == a_snap);
                if bindable(o_snap, args0) && linear_template(o_snap) {
                    assert forall|n: usize| #[trigger]
                        mentions_argument(Out::Many(a_snap), n) implies n < args0.len()
                        && args0[n as int] is Some by {
                        let w = choose|w: int|
                            0 <= w < a_snap@.len() && mentions_argument(#[trigger] a_snap@[w], n);
                        assert(mentions_argument(o_snap, n));
                    }
                    assert forall|n: usize| #[trigger]
                        mention_count(Out::Many(a_snap), n) <= 1 by {
                        assert(mention_count(o_snap, n) == mention_count_seq(a_snap@, 0, n));
                    }
                    assert(bindable(Out::Many(a_snap), args0));
                    assert(linear_template(Out::Many(a_snap)));
                }
            }
            let res = outs_to_internals(a, args);
            proof {
                assert forall|k: int|
                    0 <= k < args0.len() && #[trigger] args@[k] is None implies args0[k] is None
                    || mentions_argument(o_snap, k as usize) by {
                    if args0[k] is Some {
                        assert(mentions_argument(Out::Many(a_snap), k as usize));
                        let w = choose|w: int|
                            0 <= w < a_snap@.len() && mentions_argument(
                                #[trigger] a_snap@[w],
                                k as usize,
                            );
                        assert(mentions_argument(o_snap, k as usize));
                    }
                }
            }
            match res {
                Ok(ch) => Ok(OutInternal::Many(ch)),
                Err(i) => Err(i),
            }
        },
        Out::TeX(a, display) => {
            let ghost a_snap = a;
            proof {
                assert(Out::Many(a_snap)->Many_0 == a_snap);
                if bindable(o_snap, args0) && linear_template(o_snap) {
                    assert forall|n: usize| #[trigger]
                        mentions_argument(Out::Many(a_snap), n) implies n < args0.len()
                        && args0[n as int] is Some by {
                        let w = choose|w: int|
                            0 <= w < a_snap@.len() && mentions_argument(#[trigger] a_snap@[w], n);
                        assert(mentions_argument(o_snap, n));
                    }
                    assert forall|n: usize| #[trigger]
                        mention_count(Out::Many(a_snap), n) <= 1 by {
                        assert(mention_count(o_snap, n) == mention_count_seq(a_snap@, 0, n));
                    }
                    assert(bindable(Out::Many(a_snap), args0));
                    assert(linear_template(Out::Many(a_snap)));
                }
            }
            let res = outs_to_internals(a, args);
            proof {
                assert forall|k: int|
                    0 <= k < args0.len() && #[trigger] args@[k] is None implies args0[k] is None
                    || mentions_argument(o_snap, k as usize) by {
                    if args0[k] is Some {
                        assert(mentions_argument(Out::Many(a_snap), k as usize));
                        let w = choose|w: int|
                            0 <= w < a_snap@.len() && mentions_argument(
                                #[trigger] a_snap@[w],
                                k as usize,
                            );
                        assert(mentions_argument(o_snap, k as usize));
                    }
                }
            }
            match res {
                Ok(ch) => Ok(OutInternal::TeX(Trace::none(), ch, display)),
                Err(i) => Err(i),
            }
        },
        Out::HtmlTag(tag, params, a) => {
            let ghost a_snap = a;
            proof {
                assert(Out::Many(a_snap)->Many_0 == a_snap);
                if bindable(o_snap, args0) && linear_template(o_snap) {
                    assert forall|n: usize| #[trigger]
                        mentions_argument(Out::Many(a_snap), n) implies n < args0.len()
                        && args0[n as int] is Some by {
                        let w = choose|w: int|
                            0 <= w < a_snap@.len() && mentions_argument(#[trigger] a_snap@[w], n);
                        assert(mentions_argument(o_snap, n));
                    }
                    assert forall|n: usize| #[trigger]
                        mention_count(Out::Many(a_snap), n) <= 1 by {
                        assert(mention_count(o_snap, n) == mention_count_seq(a_snap@, 0, n));
                    }
                    assert(bindable(Out::Many(a_snap), args0));
                    assert(linear_template(Out::Many(a_snap)));
                }
            }
            let res = outs_to_internals(a, args);
            proof {
                assert forall|k: int|
                    0 <= k < args0.len() && #[trigger] args@[k] is None implies args0[k] is None
                    || mentions_argument(o_snap, k as usize) by {
                    if args0[k] is Some {
                        assert(mentions_argument(Out::Many(a_snap), k as usize));
                        let w = choose|w: int|
                            0 <= w < a_snap@.len() && mentions_argument(
                                #[trigger] a_snap@[w],
                                k as usize,
                            );
                        assert(mentions_argument(o_snap, k as usize));
                    }
                }
            }
            match res {
                Ok(ch) => Ok(OutInternal::HtmlTag(Trace::none(), tag, params, ch)),
                Err(i) => Err(i),
            }
        },
        Out::Input(path, a) => {
            let ghost a_snap = a;
            proof {
                assert(Out::Many(a_snap)->Many_0 == a_snap);
                if bindable(o_snap, args0) && linear_template(o_snap) {
                    assert forall|n: usize| #[trigger]
                        mentions_argument(Out::Many(a_snap), n) implies n < args0.len()
                        && args0[n as int] is Some by {
                        let w = choose|w: int|
                            0 <= w < a_snap@.len() && mentions_argument(#[trigger] a_snap@[w], n);
                        assert(mentions_argument(o_snap, n));
                    }
                    assert forall|n: usize| #[trigger]
                        mention_count(Out::Many(a_snap), n) <= 1 by {
                        assert(mention_count(o_snap, n) == mention_count_seq(a_snap@, 0, n));
                    }
                    assert(bindable(Out::Many(a_snap), args0));
                    assert(linear_template(Out::Many(a_snap)));
                }
            }
            let res = outs_to_internals(a, args);
            proof {
                assert forall|k: int|
                    0 <= k < args0.len() && #[trigger] args@[k] is None implies args0[k] is None
                    || mentions_argument(o_snap, k as usize) by {
                    if args0[k] is Some {
                        assert(mentions_argument(Out::Many(a_snap), k as usize));
                        let w = choose|w: int|
                            0 <= w < a_snap@.len() && mentions_argument(
                                #[trigger] a_snap@[w],
                                k as usize,
                            );
                        assert(mentions_argument(o_snap, k as usize));
                    }
                }
            }
            match res {
                Ok(ch) => Ok(OutInternal::Input(Trace::none(), path, ch)),
                Err(i) => Err(i),
            }
        },
        Out::Output(path, a, tee) => {
            let ghost a_snap = a;
            proof {
                assert(Out::Many(a_snap)->Many_0 == a_snap);
                if bindable(o_snap, args0) && linear_template(o_snap) {
                    assert forall|n: usize| #[trigger]
                        mentions_argument(Out::Many(a_snap), n) implies n < args0.len()
                        && args0[n as int] is Some by {
                        let w = choose|w: int|
                            0 <= w < a_snap@.len() && mentions_argument(#[trigger] a_snap@[w], n);
                        assert(mentions_argument(o_snap, n));
                    }
                    assert forall|n: usize| #[trigger]
                        mention_count(Out::Many(a_snap), n) <= 1 by {
                        assert(mention_count(o_snap, n) == mention_count_seq(a_snap@, 0, n));
                    }
                    assert(bindable(Out::Many(a_snap), args0));
                    assert(linear_template(Out::Many(a_snap)));
                }
            }
            let res = outs_to_internals(a, args);
            proof {
                assert forall|k: int|
                    0 <= k < args0.len() && #[trigger] args@[k] is None implies args0[k] is None
                    || mentions_argument(o_snap, k as usize) by {
                    if args0[k] is Some {
                        assert(mentions_argument(Out::Many(a_snap), k as usize));
                        let w = choose|w: int|
                            0 <= w < a_snap@.len() && mentions_argument(
                                #[trigger] a_snap@[w],
                                k as usize,
                            );
                        assert(mentions_argument(o_snap, k as usize));
                    }
                }
            }
            match res {
                Ok(ch) => Ok(OutInternal::Output(Trace::none(), path, ch, tee)),
                Err(i) => Err(i),
            }
        },
        Out::Cref(a) => {
            let ghost a_snap = a;
            proof {
                assert(Out::Many(a_snap)->Many_0 == a_snap);
                if bindable(o_snap, args0) && linear_template(o_snap) {
                    assert forall|n: usize| #[trigger]
                        mentions_argument(Out::Many(a_snap), n) implies n < args0.len()
                        && args0[n as int] is Some by {
                        let w = choose|w: int|
                            0 <= w < a_snap@.len() && mentions_argument(#[trigger] a_snap@[w], n);
                        assert(mentions_argument(o_snap, n));
                    }
                    assert forall|n: usize| #[trigger]
                        mention_count(Out::Many(a_snap), n) <= 1 by {
                        assert(mention_count(o_snap, n) == mention_count_seq(a_snap@, 0, n));
                    }
                    assert(bindable(Out::Many(a_snap), args0));
                    assert(linear_template(Out::Many(a_snap)));
                }
            }
            let res = outs_to_internals(a, args);
            proof {
                assert forall|k: int|
                    0 <= k < args0.len() && #[trigger] args@[k] is None implies args0[k] is None
                    || mentions_argument(o_snap, k as usize) by {
                    if args0[k] is Some {
                        assert(mentions_argument(Out::Many(a_snap), k as usize));
                        let w = choose|w: int|
                            0 <= w < a_snap@.len() && mentions_argument(
                                #[trigger] a_snap@[w],
                                k as usize,
                            );
                        assert(mentions_argument(o_snap, k as usize));
                    }
                }
            }
            match res {
                Ok(ch) => Ok(OutInternal::Cref(Trace::none(), ch)),
                Err(i) => Err(i),
            }
        },
        Out::MathFunctionParens(p, a) => {
            let ghost a_snap = a;
            proof {
                assert(Out::Many(a_snap)->Many_0 == a_snap);
                if bindable(o_snap, args0) && linear_template(o_snap) {
                    assert forall|n: usize| #[trigger]
                        mentions_argument(Out::Many(a_snap), n) implies n < args0.len()
                        && args0[n as int] is Some by {
                        let w = choose|w: int|
                            0 <= w < a_snap@.len() && mentions_argument(#[trigger] a_snap@[w], n);
                        assert(mentions_argument(o_snap, n));
                    }
                    assert forall|n: usize| #[trigger]
                        mention_count(Out::Many(a_snap), n) <= 1 by {
                        assert(mention_count(o_snap, n) == mention_count_seq(a_snap@, 0, n));
                    }
                    assert(bindable(Out::Many(a_snap), args0));
                    assert(linear_template(Out::Many(a_snap)));
                }
            }
            let res = outs_to_internals(a, args);
            proof {
                assert forall|k: int|
                    0 <= k < args0.len() && #[trigger] args@[k] is None implies args0[k] is None
                    || mentions_argument(o_snap, k as usize) by {
                    if args0[k] is Some {
                        assert(mentions_argument(Out::Many(a_snap), k as usize));
                        let w = choose|w: int|
                            0 <= w < a_snap@.len() && mentions_argument(
                                #[trigger] a_snap@[w],
                                k as usize,
                            );
                        assert(mentions_argument(o_snap, k as usize));
                    }
                }
            }
            match res {
                Ok(ch) => Ok(OutInternal::MathFunctionParens(Trace::none(), p, ch)),
                Err(i) => Err(i),
            }
        },
        Out::Argument(n) => {
            proof {
                assert(mentions_argument(o_snap, n));
            }
            if n < args.len() {
                let mut slot: Option<OutInternal> = None;
                let elem = vstd::std_specs::vec::vec_index_mut(args, n);
                core::mem::swap(&mut slot, elem);
                match slot {
                    Some(node) => Ok(node),
                    None => Err(n),
                }
            } else {
                Err(n)
            }
        },
        Out::Text(s) => Ok(OutInternal::Text(s, Trace::none())),
    }
}

/// The literal run a node denotes: a text node's own characters, `None` for
/// any other node.
pub open spec fn text_run(o: OutInternal) -> Option<Seq<char>> {
    match o {
        OutInternal::Text(t, _) => Some(t@),
        _ => None,
    }
}

/// The concatenated literal runs of `outs[i..]`; `None` as soon as one node
/// is not a literal run.
pub open spec fn texts_concat(outs: Seq<OutInternal>, i: int) -> Option<Seq<char>>
    decreases outs.len() - i,
{
    if i < 0 || i >= outs.len() {
        Some(Seq::empty())
    } else {
        match text_run(outs[i]) {
            None => None,
            Some(t) => match texts_concat(outs, i + 1) {
                None => None,
                Some(rest) => Some(t + rest),
            },
        }
    }
}

/// The text a literal-only tree denotes: a single run, or one group of
/// runs concatenated — the shape the parser emits for macro-free input.
/// `None` on anything else.
pub open spec fn flat_text(o: OutInternal) -> Option<Seq<char>> {
    match o {
        OutInternal::Text(t, _) => Some(t@),
        OutInternal::Many(outs) => texts_concat(outs@, 0),
        _ => None,
    }
}

/// Appending one more literal run extends the concatenation by its text.
pub proof fn lemma_texts_concat_push(outs: Seq<OutInternal>, x: OutInternal, i: int)
    requires
        0 <= i <= outs.len(),
    ensures
        texts_concat(outs.push(x), i) == (match (texts_concat(outs, i), text_run(x)) {
            (Some(a), Some(b)) => Some(a + b),
            _ => None,
        }),
    decreases outs.len() - i,
{
    let p = outs.push(x);
    if i == outs.len() {
        assert(p[i] == x);
        match text_run(x) {
            None => {},
            Some(b) => {
                assert(texts_concat(p, i + 1) == Some(Seq::<char>::empty()));
                assert(Seq::<char>::empty() + b =~= b);
                assert(b + Seq::<char>::empty() =~= b);
            },
        }
    } else {
        assert(p[i] == outs[i]);
        lemma_texts_concat_push(outs, x, i + 1);
        match (text_run(outs[i]), texts_concat(outs, i + 1), text_run(x)) {
            (Some(t), Some(rest), Some(b)) => {
                assert(t + (rest + b) =~= (t + rest) + b);
            },
            _ => {},
        }
    }
}

/// Every element of a fully literal list is itself a literal run.
pub proof fn lemma_texts_concat_index(outs: Seq<OutInternal>, i: int, k: int)
    requires
        0 <= i <= k < outs.len(),
        texts_concat(outs, i) is Some,
    ensures
        text_run(outs[k]) is Some,
        texts_concat(outs, k) is Some,
    decreases k - i,
{
    if i < k {
        lemma_texts_concat_index(outs, i + 1, k);
    }
}

/// Whether `node` is a group node holding exactly `outs`.
pub open spec fn is_group_of(node: OutInternal, outs: Seq<OutInternal>) -> bool {
    match node {
        OutInternal::Many(v) => v@ == outs,
        _ => false,
    }
}

/// Whether `node` is what a group of literal runs collapses to: the run
/// itself for a single one, the group node otherwise.
pub open spec fn literal_group_shape(outs: Seq<OutInternal>, node: OutInternal) -> bool {
    &&& texts_concat(outs, 0) is Some
    &&& (outs.len() == 1 ==> node == outs[0])
    &&& (outs.len() != 1 ==> is_group_of(node, outs))
}

/// A group of literal runs collapses to a tree denoting their
/// concatenation.
pub proof fn lemma_collapse_literal_runs(
    outs: Seq<OutInternal>,
    node: OutInternal,
)
    requires
        literal_group_shape(outs, node),
    ensures
        flat_text(node) == Some(texts_concat(outs, 0).unwrap()),
{
    if outs.len() == 1 {
        lemma_texts_concat_index(outs, 0, 0);
        let t = text_run(outs[0]).unwrap();
        assert(texts_concat(outs, 1) == Some(Seq::<char>::empty()));
        assert(t + Seq::<char>::empty() =~= t);
    }
}


/// How many times the template `t` mentions `Argument(n)`.
pub open spec fn mention_count(t: Out, n: usize) -> nat
    decreases t, 0int,
{
    match t {
        Out::Many(outs) => mention_count_seq(outs@, 0, n),
        Out::Argument(m) => if m == n {
            1nat
        } else {
            0nat
        },
        Out::Text(_) => 0nat,
        Out::TeX(a, _) => mention_count_seq(a@, 0, n),
        Out::HtmlTag(_, _, a) => mention_count_seq(a@, 0, n),
        Out::Input(_, a) => mention_count_seq(a@, 0, n),
        Out::Output(_, a, _) => mention_count_seq(a@, 0, n),
        Out::Cref(a) => mention_count_seq(a@, 0, n),
        Out::MathFunctionParens(_, a) => mention_count_seq(a@, 0, n),
    }
}

/// How many times the templates `ts[i..]` mention `Argument(n)` in all.
pub open spec fn mention_count_seq(ts: Seq<Out>, i: int, n: usize) -> nat
    decreases ts, ts.len() - i,
{
    if i < 0 || i >= ts.len() {
        0nat
    } else {
        mention_count(ts[i], n) + mention_count_seq(ts, i + 1, n)
    }
}

/// A mentioned index counts at least once.
pub proof fn lemma_mention_count_pos(t: Out, n: usize)
    requires
        mentions_argument(t, n),
    ensures
        mention_count(t, n) >= 1,
    decreases t, 0int,
{
    match t {
        Out::Many(outs) => {
            let w = choose|w: int|
                0 <= w < outs@.len() && mentions_argument(#[trigger] outs@[w], n);
            lemma_mention_count_pos(outs@[w], n);
            lemma_mention_count_seq_pos(outs@, 0, w, n);
        },
        Out::TeX(a, _) => {
            let w = choose|w: int| 0 <= w < a@.len() && mentions_argument(#[trigger] a@[w], n);
            lemma_mention_count_pos(a@[w], n);
            lemma_mention_count_seq_pos(a@, 0, w, n);
        },
        Out::HtmlTag(_, _, a) => {
            let w = choose|w: int| 0 <= w < a@.len() && mentions_argument(#[trigger] a@[w], n);
            lemma_mention_count_pos(a@[w], n);
            lemma_mention_count_seq_pos(a@, 0, w, n);
        },
        Out::Input(_, a) => {
            let w = choose|w: int| 0 <= w < a@.len() && mentions_argument(#[trigger] a@[w], n);
            lemma_mention_count_pos(a@[w], n);
            lemma_mention_count_seq_pos(a@, 0, w, n);
        },
        Out::Output(_, a, _) => {
            let w = choose|w: int| 0 <= w < a@.len() && mentions_argument(#[trigger] a@[w], n);
            lemma_mention_count_pos(a@[w], n);
            lemma_mention_count_seq_pos(a@, 0, w, n);
        },
        Out::Cref(a) => {
            let w = choose|w: int| 0 <= w < a@.len() && mentions_argument(#[trigger] a@[w], n);
            lemma_mention_count_pos(a@[w], n);
            lemma_mention_count_seq_pos(a@, 0, w, n);
        },
        Out::MathFunctionParens(_, a) => {
            let w = choose|w: int| 0 <= w < a@.len() && mentions_argument(#[trigger] a@[w], n);
            lemma_mention_count_pos(a@[w], n);
            lemma_mention_count_seq_pos(a@, 0, w, n);
        },
        _ => {},
    }
}

/// One element's count bounds the count of the list holding it.
pub proof fn lemma_mention_count_seq_pos(ts: Seq<Out>, i: int, w: int, n: usize)
    requires
        0 <= i <= w < ts.len(),
    ensures
        mention_count_seq(ts, i, n) >= mention_count(ts[w], n),
    decreases w - i,
{
    if i < w {
        lemma_mention_count_seq_pos(ts, i + 1, w, n);
    }
}

/// Dropping the head of a template list drops its count share.
pub proof fn lemma_mention_count_seq_shift(ts: Seq<Out>, n: usize)
    requires
        ts.len() > 0,
    ensures
        mention_count_seq(ts.drop_first(), 0, n) + mention_count(ts[0], n) == mention_count_seq(
            ts,
            0,
            n,
        ),
{
    lemma_mention_count_seq_shift_from(ts, 1, n);
}

proof fn lemma_mention_count_seq_shift_from(ts: Seq<Out>, i: int, n: usize)
    requires
        1 <= i <= ts.len(),
    ensures
        mention_count_seq(ts.drop_first(), i - 1, n) == mention_count_seq(ts, i, n),
    decreases ts.len() - i,
{
    if i < ts.len() {
        assert(ts.drop_first()[i - 1] == ts[i]);
        lemma_mention_count_seq_shift_from(ts, i + 1, n);
    }
}

/// Whether a template mentions every index at most once, as the compiled-in
/// table's templates do.
pub open spec fn linear_template(t: Out) -> bool {
    forall|n: usize| #[trigger] mention_count(t, n) <= 1
}

/// Whether every index a template mentions is in range and still filled.
pub open spec fn bindable(t: Out, args: Seq<Option<OutInternal>>) -> bool {
    forall|n: usize| #[trigger] mentions_argument(t, n) ==> n < args.len() && args[n as int] is Some
}

} // verus!
