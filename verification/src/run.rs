//! The two-pass driver. A run parses and expands the whole document twice
//! from its entrypoint: the first pass discovers the registry, the second
//! resolves references against it and logs the files to write. Any error in
//! either pass aborts the run, and the write log is returned only after a
//! fully successful second pass, so a failed run writes nothing.
use vstd::prelude::*;
use vstd::string::StrSliceExecFns;
use crate::errors::{ExpansionError, ParseError};
use crate::expand::{Yatt, OutFile, CopyItem, expand, frame, restored};
use crate::state::{State, StickyState};
use crate::strmap::StrMap;

verus! {

/// What a run is asked to do: expand the document rooted at this entrypoint
/// path.
pub struct RunConfiguration {
    pub entrypoint: String,
}

/// What a successful run hands back: the files to write and the recursive
/// copies to perform, in the order the second pass logged them.
pub struct RunOutput {
    pub outputs: Vec<OutFile>,
    pub copies: Vec<CopyItem>,
}

/// Everything that can end a run early.
#[derive(Debug)]
pub enum YattError {
    /// The entrypoint file is not in the file set.
    EntryMissing(String),
    /// The source text did not parse.
    Parse(ParseError),
    /// Expansion failed.
    Expansion(ExpansionError),
}

/// The evaluation depth budget of a pass.
pub const FUEL: u64 = 0x10000000;

/// Runs one pass: reads the entrypoint from the file set, parses it into
/// the shared coordinate space, and expands it. The pass indicator decides
/// whether anything is logged for writing.
pub fn run_pass(y: &mut Yatt) -> (r: Result<(), YattError>)
    requires
        old(y).state.wf(),
    ensures
        frame(*old(y), *final(y)),
        restored(*old(y), *final(y)),
        !old(y).files@.contains_key(old(y).state.entrypoint@) ==> (r matches Err(e) && e
            == YattError::EntryMissing(old(y).state.entrypoint)),
        (old(y).files@.contains_key(old(y).state.entrypoint@) && old(y).files@[old(
            y,
        ).state.entrypoint@]@.len() < usize::MAX - old(y).source_len && crate::parse::spec_literal(
            old(y).files@[old(y).state.entrypoint@]@,
            0,
        ) is Some ==> (r matches Ok(u) && final(y).outputs == old(y).outputs && final(y).copies
            == old(y).copies && final(y).source_len == old(y).source_len + old(y).files@[old(
            y,
        ).state.entrypoint@]@.len())),
{
    let entry: String = match y.files.get(y.state.entrypoint.as_str()) {
        None => {
            return Err(YattError::EntryMissing(y.state.entrypoint.clone()));
        },
        Some(c) => c.clone(),
    };
    let len = entry.as_str().unicode_len();
    if len >= usize::MAX - y.source_len {
        return Err(YattError::Expansion(ExpansionError::TooDeep(crate::trace::Trace::none())));
    }
    let off = y.source_len;
    y.source_len = y.source_len + len;
    let ast = match crate::parse::parse(entry.as_str(), off) {
        Err(pe) => {
            return Err(YattError::Parse(pe));
        },
        Ok(a) => a,
    };
    match expand(ast, y, FUEL) {
        Err(e) => Err(YattError::Expansion(e)),
        Ok(_) => Ok(()),
    }
}

/// Runs the whole pipeline on the given file set: parse and expand the
/// entrypoint once to populate the registry, carry the registry into a
/// fresh second-pass state, and parse and expand the whole input again.
/// The first pass logs no writes at all; everything handed back was logged
/// by the second pass. On any error nothing is handed back, so a failed
/// run produces no output.
pub fn run(c: RunConfiguration, files: StrMap<String>) -> (r: Result<RunOutput, YattError>)
    ensures
        !files@.contains_key(c.entrypoint@) ==> (r matches Err(e) && e == YattError::EntryMissing(
            c.entrypoint,
        )),
        (files@.contains_key(c.entrypoint@) && 2 * files@[c.entrypoint@]@.len() < usize::MAX
            && crate::parse::spec_literal(files@[c.entrypoint@]@, 0) is Some ==> (r matches Ok(out)
            && out.outputs@.len() == 0 && out.copies@.len() == 0)),
{
    let state = State::new(c.entrypoint);
    let entrypoint_copy = state.entrypoint.clone();
    let mut y = Yatt { state, files, outputs: Vec::new(), copies: Vec::new(), source_len: 0 };
    match run_pass(&mut y) {
        Err(e) => {
            return Err(e);
        },
        Ok(()) => {},
    }
    assert(y.outputs@.len() == 0);
    assert(y.copies@.len() == 0);
    let mut sticky = StickyState::new();
    core::mem::swap(&mut sticky, &mut y.state.sticky_state);
    sticky.hsections_structure.reset();
    let mut state2 = State::new(entrypoint_copy);
    state2.second_iteration = true;
    state2.sticky_state = sticky;
    y.state = state2;
    match run_pass(&mut y) {
        Err(e) => {
            return Err(e);
        },
        Ok(()) => {},
    }
    Ok(RunOutput { outputs: y.outputs, copies: y.copies })
}

} // verus!
