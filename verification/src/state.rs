//! The per-pass document state and the sticky registry that survives both
//! passes: identifier, section, box and defined-term tables, the math-symbol
//! bindings, the case numbering table, and the navigation tree.
use vstd::prelude::*;
use vstd::string::StrSliceExecFns;
use crate::hsections::HSections;
use crate::strmap::StrMap;
use crate::trace::Trace;

verus! {

/// The kind a registered id belongs to.
#[derive(Clone, Copy, Debug, PartialEq, Eq, Structural)]
pub enum CrefKind {
    HSection,
    Box,
    Case,
    BoxlessDefinition,
}

/// The family of a numbered box; exercises are counted apart from all other
/// boxes, and proofs are unnumbered.
#[derive(Clone, Copy, Debug, PartialEq, Eq, Structural)]
pub enum BoxKind {
    Exercise,
    Other(OtherBoxKind),
    Proof,
}

/// The kinds of boxes sharing the non-exercise counter.
#[derive(Clone, Copy, Debug, PartialEq, Eq, Structural)]
pub enum OtherBoxKind {
    Fact,
    Example,
    Definition,
}

impl BoxKind {
    /// The CSS class of the box kind.
    pub open spec fn spec_class(self) -> Seq<char> {
        match self {
            BoxKind::Exercise => "exercise"@,
            BoxKind::Other(OtherBoxKind::Fact) => "fact"@,
            BoxKind::Other(OtherBoxKind::Example) => "example"@,
            BoxKind::Other(OtherBoxKind::Definition) => "definition"@,
            BoxKind::Proof => "proof"@,
        }
    }

    /// Returns the CSS class of the box kind.
    pub fn class(&self) -> (r: String)
        ensures
            r@ == self.spec_class(),
    {
        match self {
            BoxKind::Exercise => "exercise".to_owned(),
            BoxKind::Other(OtherBoxKind::Fact) => "fact".to_owned(),
            BoxKind::Other(OtherBoxKind::Example) => "example".to_owned(),
            BoxKind::Other(OtherBoxKind::Definition) => "definition".to_owned(),
            BoxKind::Proof => "proof".to_owned(),
        }
    }

    /// The exercise kind.
    pub fn exercise() -> (r: BoxKind)
        ensures
            r == BoxKind::Exercise,
    {
        BoxKind::Exercise
    }

    /// The fact kind.
    pub fn fact() -> (r: BoxKind)
        ensures
            r == BoxKind::Other(OtherBoxKind::Fact),
    {
        BoxKind::Other(OtherBoxKind::Fact)
    }

    /// The example kind.
    pub fn example() -> (r: BoxKind)
        ensures
            r == BoxKind::Other(OtherBoxKind::Example),
    {
        BoxKind::Other(OtherBoxKind::Example)
    }

    /// The definition kind.
    pub fn definition() -> (r: BoxKind)
        ensures
            r == BoxKind::Other(OtherBoxKind::Definition),
    {
        BoxKind::Other(OtherBoxKind::Definition)
    }

    /// The proof kind.
    pub fn proof_box() -> (r: BoxKind)
        ensures
            r == BoxKind::Proof,
    {
        BoxKind::Proof
    }
}

/// What the identifier table records for a registered id.
pub struct IdInfo {
    pub definition: Trace,
    pub file: String,
    pub kind: CrefKind,
}

/// What the section table records: heading label ("Chapter", "Section",
/// ...), title text, and the numbering string.
pub struct HSectionInfo {
    pub name: String,
    pub title: String,
    pub numbering: String,
}

/// What the box table records: label, numbering, kind and CSS classes.
pub struct BoxInfo {
    pub name: String,
    pub numbering: String,
    pub kind: BoxKind,
    pub classes: String,
}

/// What the defined-term table records.
pub struct DefinedInfo {
    pub definition: Trace,
    pub href: String,
    pub preview: String,
    pub singular: String,
    pub plural: String,
}

/// The registry that survives both passes: populated during the first pass
/// and consulted, re-derived but never contradicted, during the second.
pub struct StickyState {
    pub ids: StrMap<IdInfo>,
    pub hsections: StrMap<HSectionInfo>,
    pub boxes: StrMap<BoxInfo>,
    pub defined: StrMap<DefinedInfo>,
    pub math_definitions: StrMap<String>,
    pub cases: StrMap<String>,
    pub hsections_structure: HSections,
}

impl StickyState {
    /// Empty tables and a fresh navigation tree.
    pub fn new() -> (r: StickyState)
        ensures
            r.ids@ == Map::<Seq<char>, IdInfo>::empty(),
            r.hsections@ == Map::<Seq<char>, HSectionInfo>::empty(),
            r.boxes@ == Map::<Seq<char>, BoxInfo>::empty(),
            r.defined@ == Map::<Seq<char>, DefinedInfo>::empty(),
            r.math_definitions@ == Map::<Seq<char>, String>::empty(),
            r.cases@ == Map::<Seq<char>, String>::empty(),
            r.hsections_structure.wf(),
            r.hsections_structure.path() == Seq::<usize>::empty(),
    {
        StickyState {
            ids: StrMap::new(),
            hsections: StrMap::new(),
            boxes: StrMap::new(),
            defined: StrMap::new(),
            math_definitions: StrMap::new(),
            cases: StrMap::new(),
            hsections_structure: HSections::new(),
        }
    }
}

/// The per-pass document state. One is created fresh for each pass; only
/// the sticky registry moves from the first pass into the second.
pub struct State {
    pub entrypoint: String,
    pub current_file: String,
    pub current_output: String,
    pub second_iteration: bool,
    pub sticky_state: StickyState,
    pub domain: String,
    pub hsection_level: usize,
    pub hsection_current_count: Vec<usize>,
    pub box_exercise_current_count: usize,
    pub box_exercise_level: usize,
    pub box_other_current_count: usize,
    pub box_other_level: usize,
    pub box_current: Option<String>,
    pub box_previews: Vec<String>,
    pub boxless_previews: Vec<String>,
    pub mathmode: bool,
    pub fleqn: bool,
    pub cases: Vec<usize>,
}

/// The default domain prefix links are resolved under.
pub open spec fn spec_default_domain() -> Seq<char> {
    "http://localhost:8080/"@
}

impl State {
    /// Structural soundness: six section counters, a bounded nesting level,
    /// and a navigation tree whose current path names a node.
    pub open spec fn wf(self) -> bool {
        &&& self.hsection_current_count@.len() == 6
        &&& self.hsection_level <= 5
        &&& self.box_exercise_level < 6
        &&& self.box_other_level < 6
        &&& self.sticky_state.hsections_structure.wf()
    }

    /// Fresh per-pass state for a run rooted at `entrypoint`: first pass,
    /// all counters zero, an empty registry, the default domain.
    pub fn new(entrypoint: String) -> (r: State)
        ensures
            r.wf(),
            r.entrypoint == entrypoint,
            r.current_file == entrypoint,
            r.current_output@ == Seq::<char>::empty(),
            r.second_iteration == false,
            r.sticky_state.ids@ == Map::<Seq<char>, IdInfo>::empty(),
            r.sticky_state.hsections@ == Map::<Seq<char>, HSectionInfo>::empty(),
            r.sticky_state.boxes@ == Map::<Seq<char>, BoxInfo>::empty(),
            r.sticky_state.defined@ == Map::<Seq<char>, DefinedInfo>::empty(),
            r.sticky_state.math_definitions@ == Map::<Seq<char>, String>::empty(),
            r.sticky_state.cases@ == Map::<Seq<char>, String>::empty(),
            r.domain@ == spec_default_domain(),
            r.hsection_level == 0,
            forall|i: int| 0 <= i < 6 ==> r.hsection_current_count@[i] == 0,
            r.box_exercise_current_count == 0,
            r.box_exercise_level == 1,
            r.box_other_current_count == 0,
            r.box_other_level == 1,
            r.box_current is None,
            r.box_previews@.len() == 0,
            r.boxless_previews@.len() == 0,
            r.mathmode == false,
            r.fleqn == false,
            r.cases@.len() == 0,
    {
        let current_file = entrypoint.clone();
        let mut counts: Vec<usize> = Vec::new();
        let mut i: usize = 0;
        while i < 6
            invariant
                i <= 6,
                counts@.len() == i,
                forall|j: int| 0 <= j < i ==> counts@[j] == 0,
            decreases 6 - i,
        {
            counts.push(0);
            i = i + 1;
        }
        State {
            entrypoint,
            current_file,
            current_output: String::new(),
            second_iteration: false,
            sticky_state: StickyState::new(),
            domain: "http://localhost:8080/".to_owned(),
            hsection_level: 0,
            hsection_current_count: counts,
            box_exercise_current_count: 0,
            box_exercise_level: 1,
            box_other_current_count: 0,
            box_other_level: 1,
            box_current: None,
            box_previews: Vec::new(),
            boxless_previews: Vec::new(),
            mathmode: false,
            fleqn: false,
            cases: Vec::new(),
        }
    }

    /// The directory of the file being expanded.
    pub fn cwd(&self) -> (r: String)
        ensures
            r@ == crate::text::spec_parent(self.current_file@),
    {
        crate::text::parent_dir(self.current_file.as_str())
    }

    /// The directory of the entrypoint: the project root.
    pub fn base_dir(&self) -> (r: String)
        ensures
            r@ == crate::text::spec_parent(self.entrypoint@),
    {
        crate::text::parent_dir(self.entrypoint.as_str())
    }

    /// The prefix all output files land under: the project root's `build`
    /// directory.
    pub open spec fn spec_build_prefix(self) -> Seq<char> {
        crate::text::spec_parent(self.entrypoint@) + "/build/"@
    }

    /// The current output path relative to the build directory; a path not
    /// under it is handed back whole.
    pub open spec fn spec_current_output_relative(self) -> Seq<char> {
        if crate::text::spec_starts_with(self.current_output@, self.spec_build_prefix()) {
            self.current_output@.subrange(
                self.spec_build_prefix().len() as int,
                self.current_output@.len() as int,
            )
        } else {
            self.current_output@
        }
    }

    /// Returns the current output path relative to the build directory.
    pub fn current_output_relative(&self) -> (r: String)
        ensures
            r@ == self.spec_current_output_relative(),
    {
        let base = self.base_dir();
        let mut prefix = base;
        crate::text::push_str(&mut prefix, "/build/");
        proof {
            assert(prefix@ == self.spec_build_prefix());
        }
        if crate::text::starts_with(self.current_output.as_str(), prefix.as_str()) {
            crate::text::drop_prefix(self.current_output.as_str(), prefix.unicode_len())
        } else {
            self.current_output.clone()
        }
    }
}

/// All per-pass fields of `b` equal those of `a`; the sticky registry is
/// not constrained.
pub open spec fn same_state_fields(a: State, b: State) -> bool {
    &&& b.entrypoint == a.entrypoint
    &&& b.current_file == a.current_file
    &&& b.current_output == a.current_output
    &&& b.second_iteration == a.second_iteration
    &&& b.domain == a.domain
    &&& b.hsection_level == a.hsection_level
    &&& b.hsection_current_count == a.hsection_current_count
    &&& b.box_exercise_current_count == a.box_exercise_current_count
    &&& b.box_exercise_level == a.box_exercise_level
    &&& b.box_other_current_count == a.box_other_current_count
    &&& b.box_other_level == a.box_other_level
    &&& b.box_current == a.box_current
    &&& b.box_previews == a.box_previews
    &&& b.boxless_previews == a.boxless_previews
    &&& b.mathmode == a.mathmode
    &&& b.fleqn == a.fleqn
    &&& b.cases == a.cases
}

/// All registry tables of `b` equal those of `a` except the identifier
/// table.
pub open spec fn same_sticky_except_ids(a: StickyState, b: StickyState) -> bool {
    &&& b.hsections == a.hsections
    &&& b.boxes == a.boxes
    &&& b.defined == a.defined
    &&& b.math_definitions == a.math_definitions
    &&& b.cases == a.cases
    &&& b.hsections_structure == a.hsections_structure
}

/// All registry tables of `b` equal those of `a` except the defined-term
/// table.
pub open spec fn same_sticky_except_defined(a: StickyState, b: StickyState) -> bool {
    &&& b.ids == a.ids
    &&& b.hsections == a.hsections
    &&& b.boxes == a.boxes
    &&& b.math_definitions == a.math_definitions
    &&& b.cases == a.cases
    &&& b.hsections_structure == a.hsections_structure
}

impl State {
    /// The URL an id resolves to: the domain, the output-relative file it
    /// was registered under, a `#`, and the id.
    pub open spec fn spec_id_url(self, id: Seq<char>) -> Seq<char> {
        self.domain@ + self.sticky_state.ids@[id].file@ + seq!['#'] + id
    }

    /// The placeholder the first pass hands out instead of resolving.
    pub open spec fn spec_placeholder() -> Seq<char> {
        "set in second iteration"@
    }

    /// Registers `id` in the identifier table, binding it to the current
    /// output file. The empty id registers nothing. Re-registration within
    /// the first pass is a duplicate-id error (the table still takes the
    /// new binding); during the second pass it is expected and resolves.
    /// On success the id's URL is returned: the resolved one during the
    /// second pass, a placeholder during the first.
    pub fn register_id(&mut self, id: &str, kind: CrefKind, trace: Trace) -> (r: Result<
        String,
        crate::errors::ExpansionError,
    >)
        requires
            old(self).wf(),
        ensures
            final(self).wf(),
            same_state_fields(*old(self), *final(self)),
            same_sticky_except_ids(old(self).sticky_state, final(self).sticky_state),
            id@.len() == 0 ==> {
                &&& final(self).sticky_state.ids@ == old(self).sticky_state.ids@
                &&& r matches Ok(u) && u@ == Seq::<char>::empty()
            },
            id@.len() > 0 ==> {
                &&& final(self).sticky_state.ids@ == old(self).sticky_state.ids@.insert(
                    id@,
                    final(self).sticky_state.ids@[id@],
                )
                &&& final(self).sticky_state.ids@[id@].definition == trace
                &&& final(self).sticky_state.ids@[id@].kind == kind
                &&& final(self).sticky_state.ids@[id@].file@ == old(self).spec_current_output_relative()
            },
            id@.len() > 0 && old(self).sticky_state.ids@.contains_key(id@) && !old(self).second_iteration ==> r == Result::<String, crate::errors::ExpansionError>::Err(
                crate::errors::ExpansionError::DuplicateId(
                    old(self).sticky_state.ids@[id@].definition,
                    trace,
                ),
            ),
            id@.len() > 0 && old(self).second_iteration ==> (r matches Ok(u) && u@ == final(self).spec_id_url(id@)),
            id@.len() > 0 && !old(self).sticky_state.ids@.contains_key(id@) && !old(self).second_iteration ==> (r matches Ok(u) && u@ == State::spec_placeholder()),
    {
        if id.unicode_len() == 0 {
            proof {
                reveal_strlit("");
            }
            return Ok(String::new());
        }
        let file = self.current_output_relative();
        let info = IdInfo { definition: trace, file, kind };
        let old_def: Option<Trace> = match self.sticky_state.ids.get(id) {
            Some(old_info) => Some(old_info.definition),
            None => None,
        };
        self.sticky_state.ids.insert(id.to_owned(), info);
        match old_def {
            Some(definition) if !self.second_iteration => {
                Err(crate::errors::ExpansionError::DuplicateId(definition, trace))
            },
            _ => {
                let u = self.resolve_id_to_url(id, trace);
                match u {
                    Ok(url) => Ok(url),
                    Err(e) => Err(e),
                }
            },
        }
    }

    /// Resolves an id to its URL. The first pass yields a placeholder; the
    /// second yields the registered URL, or an unknown-id error exactly
    /// when the id was never registered.
    pub fn resolve_id_to_url(&self, id: &str, trace: Trace) -> (r: Result<
        String,
        crate::errors::ExpansionError,
    >)
        ensures
            !self.second_iteration ==> (r matches Ok(u) && u@ == State::spec_placeholder()),
            self.second_iteration && !self.sticky_state.ids@.contains_key(id@) ==> r
                == Result::<String, crate::errors::ExpansionError>::Err(
                crate::errors::ExpansionError::UnknownId(trace),
            ),
            self.second_iteration && self.sticky_state.ids@.contains_key(id@) ==> (r matches Ok(u)
                && u@ == self.spec_id_url(id@)),
    {
        if self.second_iteration {
            match self.sticky_state.ids.get(id) {
                None => Err(crate::errors::ExpansionError::UnknownId(trace)),
                Some(info) => {
                    let mut u = self.domain.clone();
                    crate::text::push_string(&mut u, &info.file);
                    crate::text::push_str(&mut u, "#");
                    crate::text::push_str(&mut u, id);
                    proof {
                        reveal_strlit("#");
                        assert(u@ =~= self.spec_id_url(id@));
                    }
                    Ok(u)
                },
            }
        } else {
            Ok("set in second iteration".to_owned())
        }
    }

    /// The URL of an id's hover-preview snippet.
    pub open spec fn spec_preview_url(self, id: Seq<char>) -> Seq<char> {
        self.domain@ + "previews/"@ + id + ".html"@
    }

    /// Returns the URL of the preview snippet for `id`.
    pub fn id_to_preview_url(&self, id: &str) -> (r: String)
        ensures
            r@ == self.spec_preview_url(id@),
    {
        let mut u = self.domain.clone();
        crate::text::push_str(&mut u, "previews/");
        crate::text::push_str(&mut u, id);
        crate::text::push_str(&mut u, ".html");
        proof {
            assert(u@ =~= self.spec_preview_url(id@));
        }
        u
    }

    /// Registers a term. The empty term is an error; re-registration in the
    /// first pass is a duplicate-definition error (the table still takes
    /// the new binding); in the second pass it is expected.
    pub fn register_define(
        &mut self,
        defined: &str,
        href: String,
        preview: String,
        singular: String,
        plural: String,
        trace: Trace,
    ) -> (r: Result<(), crate::errors::ExpansionError>)
        requires
            old(self).wf(),
        ensures
            final(self).wf(),
            same_state_fields(*old(self), *final(self)),
            same_sticky_except_defined(old(self).sticky_state, final(self).sticky_state),
            defined@.len() == 0 ==> {
                &&& final(self).sticky_state.defined@ == old(self).sticky_state.defined@
                &&& r == Result::<(), crate::errors::ExpansionError>::Err(
                    crate::errors::ExpansionError::EmptyDefine(trace),
                )
            },
            defined@.len() > 0 ==> final(self).sticky_state.defined@ == old(self).sticky_state.defined@.insert(
                defined@,
                DefinedInfo { definition: trace, href, preview, singular, plural },
            ),
            defined@.len() > 0 && old(self).sticky_state.defined@.contains_key(defined@) && !old(self).second_iteration ==> r == Result::<(), crate::errors::ExpansionError>::Err(
                crate::errors::ExpansionError::DuplicateDefine(
                    old(self).sticky_state.defined@[defined@].definition,
                    trace,
                ),
            ),
            defined@.len() > 0 && (old(self).second_iteration || !old(self).sticky_state.defined@.contains_key(defined@)) ==> r
                == Result::<(), crate::errors::ExpansionError>::Ok(()),
    {
        if defined.unicode_len() == 0 {
            return Err(crate::errors::ExpansionError::EmptyDefine(trace));
        }
        let old_def: Option<Trace> = match self.sticky_state.defined.get(defined) {
            Some(old_info) => Some(old_info.definition),
            None => None,
        };
        self.sticky_state.defined.insert(
            defined.to_owned(),
            DefinedInfo { definition: trace, href, preview, singular, plural },
        );
        match old_def {
            Some(definition) if !self.second_iteration => {
                Err(crate::errors::ExpansionError::DuplicateDefine(definition, trace))
            },
            _ => Ok(()),
        }
    }

    /// Resolves a term to the URL of its definition. The first pass yields
    /// a placeholder; the second fails with an unknown-definition error
    /// exactly when the term was never defined.
    pub fn resolve_defined_to_url(&self, defined: &str, trace: Trace) -> (r: Result<
        String,
        crate::errors::ExpansionError,
    >)
        ensures
            !self.second_iteration ==> (r matches Ok(u) && u@ == State::spec_placeholder()),
            self.second_iteration && !self.sticky_state.defined@.contains_key(defined@) ==> r
                == Result::<String, crate::errors::ExpansionError>::Err(
                crate::errors::ExpansionError::UnknownDefine(trace),
            ),
            self.second_iteration && self.sticky_state.defined@.contains_key(defined@) ==> (
            r matches Ok(u) && u@ == self.sticky_state.defined@[defined@].href@),
    {
        if self.second_iteration {
            match self.sticky_state.defined.get(defined) {
                None => Err(crate::errors::ExpansionError::UnknownDefine(trace)),
                Some(info) => Ok(info.href.clone()),
            }
        } else {
            Ok("set in second iteration".to_owned())
        }
    }

    /// Resolves a term to the URL of its preview snippet; as the URL
    /// resolution, but an absent term fails with an unknown-id error.
    pub fn resolve_defined_to_preview_url(&self, defined: &str, trace: Trace) -> (r: Result<
        String,
        crate::errors::ExpansionError,
    >)
        ensures
            !self.second_iteration ==> (r matches Ok(u) && u@ == State::spec_placeholder()),
            self.second_iteration && !self.sticky_state.defined@.contains_key(defined@) ==> r
                == Result::<String, crate::errors::ExpansionError>::Err(
                crate::errors::ExpansionError::UnknownId(trace),
            ),
            self.second_iteration && self.sticky_state.defined@.contains_key(defined@) ==> (
            r matches Ok(u) && u@ == self.sticky_state.defined@[defined@].preview@),
    {
        if self.second_iteration {
            match self.sticky_state.defined.get(defined) {
                None => Err(crate::errors::ExpansionError::UnknownId(trace)),
                Some(info) => Ok(info.preview.clone()),
            }
        } else {
            Ok("set in second iteration".to_owned())
        }
    }

    /// The display name of a registered claim: its label and numbering.
    pub open spec fn spec_claim_name(self, id: Seq<char>) -> Seq<char> {
        self.sticky_state.boxes@[id].name@ + "&nbsp;"@ + self.sticky_state.boxes@[id].numbering@
    }

    /// Resolves the claim a proof speaks about to a display name. The first
    /// pass yields the empty name; the second fails with an unknown-id
    /// error exactly when no box of that id was registered.
    pub fn claim_name(&self, id: &str, trace: Trace) -> (r: Result<
        String,
        crate::errors::ExpansionError,
    >)
        ensures
            !self.second_iteration ==> (r matches Ok(u) && u@ == Seq::<char>::empty()),
            self.second_iteration && !self.sticky_state.boxes@.contains_key(id@) ==> r
                == Result::<String, crate::errors::ExpansionError>::Err(
                crate::errors::ExpansionError::UnknownId(trace),
            ),
            self.second_iteration && self.sticky_state.boxes@.contains_key(id@) ==> (r matches Ok(
                u,
            ) && u@ == self.spec_claim_name(id@)),
    {
        if self.second_iteration {
            match self.sticky_state.boxes.get(id) {
                None => Err(crate::errors::ExpansionError::UnknownId(trace)),
                Some(info) => {
                    let mut u = info.name.clone();
                    crate::text::push_str(&mut u, "&nbsp;");
                    crate::text::push_string(&mut u, &info.numbering);
                    proof {
                        assert(u@ =~= self.spec_claim_name(id@));
                    }
                    Ok(u)
                },
            }
        } else {
            Ok(String::new())
        }
    }

    /// Enters math mode; entering it twice is an error.
    pub fn enable_mathmode(&mut self, trace: Trace) -> (r: Result<
        (),
        crate::errors::ExpansionError,
    >)
        ensures
            old(self).mathmode ==> {
                &&& r == Result::<(), crate::errors::ExpansionError>::Err(
                    crate::errors::ExpansionError::AlreadyMathmode(trace),
                )
                &&& *final(self) == *old(self)
            },
            !old(self).mathmode ==> {
                &&& r == Result::<(), crate::errors::ExpansionError>::Ok(())
                &&& *final(self) == (State { mathmode: true, ..*old(self) })
            },
    {
        if self.mathmode {
            Err(crate::errors::ExpansionError::AlreadyMathmode(trace))
        } else {
            self.mathmode = true;
            Ok(())
        }
    }

    /// Leaves math mode.
    pub fn disable_mathmode(&mut self)
        ensures
            *final(self) == (State { mathmode: false, ..*old(self) }),
    {
        self.mathmode = false;
    }
}

/// The numbering string of a section heading: the decimal values of the
/// active counters from position `i` on, dot-joined; position 0 is the
/// root's unused counter and stays 0.
pub open spec fn spec_hsection_numbering(c: Seq<usize>, i: int) -> Seq<char>
    decreases 6 - i,
{
    if i < 0 || i >= 6 || i >= c.len() {
        Seq::empty()
    } else {
        let rest = spec_hsection_numbering(c, i + 1);
        if c[i] != 0 {
            crate::text::spec_decimal(c[i] as nat) + (if i < 5 && i + 1 < c.len() && c[i + 1]
                != 0 {
                seq!['.']
            } else {
                Seq::empty()
            }) + rest
        } else {
            rest
        }
    }
}

fn hsection_numbering_from(c: &Vec<usize>, i: usize) -> (r: String)
    requires
        c@.len() == 6,
    ensures
        r@ == spec_hsection_numbering(c@, i as int),
    decreases 6 - i,
{
    if i >= 6 {
        String::new()
    } else {
        let rest = hsection_numbering_from(c, i + 1);
        if c[i] != 0 {
            let mut out = crate::text::decimal_string(c[i]);
            if i < 5 && c[i + 1] != 0 {
                crate::text::push_str(&mut out, ".");
                proof {
                    reveal_strlit(".");
                }
            }
            crate::text::push_string(&mut out, &rest);
            assert(out@ =~= spec_hsection_numbering(c@, i as int));
            out
        } else {
            rest
        }
    }
}

/// Composes the numbering string from the six section counters, dot-joined
/// over the active ones.
pub fn hsection_numbering(c: &Vec<usize>) -> (r: String)
    requires
        c@.len() == 6,
    ensures
        r@ == spec_hsection_numbering(c@, 0),
{
    hsection_numbering_from(c, 0)
}

/// The section part of a box numbering: the decimal value of each nonzero
/// counter in positions `i..=upto`, each followed by a dot.
pub open spec fn spec_box_prefix(c: Seq<usize>, upto: int, i: int) -> Seq<char>
    decreases upto - i + 1,
{
    if i < 0 || i > upto || i >= c.len() {
        Seq::empty()
    } else {
        let rest = spec_box_prefix(c, upto, i + 1);
        if c[i] != 0 {
            crate::text::spec_decimal(c[i] as nat) + seq!['.'] + rest
        } else {
            rest
        }
    }
}

fn box_prefix_from(c: &Vec<usize>, upto: usize, i: usize) -> (r: String)
    requires
        c@.len() == 6,
        upto < 6,
    ensures
        r@ == spec_box_prefix(c@, upto as int, i as int),
    decreases upto as int - i as int + 1,
{
    if i > upto {
        String::new()
    } else {
        let rest = box_prefix_from(c, upto, i + 1);
        if c[i] != 0 {
            let mut out = crate::text::decimal_string(c[i]);
            crate::text::push_str(&mut out, ".");
            crate::text::push_string(&mut out, &rest);
            proof {
                reveal_strlit(".");
            }
            assert(out@ =~= spec_box_prefix(c@, upto as int, i as int));
            out
        } else {
            rest
        }
    }
}

/// The full numbering of a numbered box: the active section counters up to
/// the box family's owning level, each with a dot, then the box's own
/// number.
pub open spec fn spec_box_numbering(c: Seq<usize>, upto: int, number: usize) -> Seq<char> {
    spec_box_prefix(c, upto, 0) + crate::text::spec_decimal(number as nat)
}

/// Composes a numbered box's numbering string.
pub fn box_numbering(c: &Vec<usize>, upto: usize, number: usize) -> (r: String)
    requires
        c@.len() == 6,
        upto < 6,
    ensures
        r@ == spec_box_numbering(c@, upto as int, number),
{
    let mut out = box_prefix_from(c, upto, 0);
    let num = crate::text::decimal_string(number);
    crate::text::push_string(&mut out, &num);
    out
}

} // verus!
