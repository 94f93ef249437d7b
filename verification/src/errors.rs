//! The error taxonomy: parse-time errors and expansion-time errors. Any
//! error aborts the whole run at its first occurrence; no partial output is
//! ever produced for a failed run.
use vstd::prelude::*;
use crate::trace::Trace;

verus! {

/// Errors raised while scanning and parsing source text.
#[derive(Clone, Debug, PartialEq, Eq)]
pub enum ParseError {
    /// The input ended in the middle of a construct.
    Eoi,
    /// A parameter literal did not decode against the macro's declared
    /// parameter shape.
    Parameters(Trace),
    /// A sigil was followed by a bareword that names no macro.
    UnknownMacroName(Trace),
}

/// Errors raised while expanding a parsed tree.
#[derive(Clone, Debug, PartialEq, Eq)]
pub enum ExpansionError {
    /// A parse error from a file pulled in during expansion.
    Parse(ParseError),
    /// A compiled-in macro template referred to an argument index beyond the
    /// arguments it received: an authoring bug in the macro table, not in
    /// the document.
    ArgumentIndex(usize, Trace),
    /// A macro was invoked with a number of arguments outside its declared
    /// arity.
    ArgumentNumber(usize, Trace),
    /// An input file was not present in the file set handed to the run.
    InputMissing(String, Trace),
    /// A definition with an empty name.
    EmptyDefine(Trace),
    /// A reference to a term that was never defined.
    UnknownDefine(Trace),
    /// The same term defined twice within one pass; carries the first
    /// definition's trace, then the redefinition's.
    DuplicateDefine(Trace, Trace),
    /// A reference to an id that was never registered.
    UnknownId(Trace),
    /// The same id registered twice within one pass; carries the first
    /// definition's trace, then the redefinition's.
    DuplicateId(Trace, Trace),
    /// A math macro whose id was never set.
    UnknownMathId(Trace, String),
    /// The id for a math macro set twice.
    DuplicateMathId(Trace, String),
    /// Section headings nested more than five levels deep.
    HSectionTooManyLevels(Trace),
    /// A cross-reference to a definition that has no box to link to.
    CrefBoxlessDefinition(Trace),
    /// A case marker outside of any cases block.
    CaseNotInCases(Trace),
    /// The TeX renderer rejected its input; carries the renderer's message.
    TeX(String, Trace),
    /// Math mode entered while already in math mode.
    AlreadyMathmode(Trace),
    /// Macro expansion nested beyond the evaluation budget, as with a file
    /// that pulls itself in again.
    TooDeep(Trace),
}

} // verus!
