//! Source spans for diagnostics. Spans are character offsets into one shared
//! coordinate space that covers every input file read during a run.
use vstd::prelude::*;

verus! {

/// A half-open span of character offsets: `start` inclusive, `end` exclusive.
#[derive(Clone, Copy, Debug, PartialEq, Eq, Structural)]
pub struct Span {
    pub start: usize,
    pub end: usize,
}

/// Optional source-location metadata attached to nodes; `None` marks a node
/// synthesized by a macro template rather than read from a file.
#[derive(Clone, Copy, Debug, PartialEq, Eq, Structural)]
pub struct Trace(pub Option<Span>);

impl Trace {
    /// A trace for synthesized nodes.
    pub fn none() -> (r: Trace)
        ensures
            r == Trace(None::<Span>),
    {
        Trace(None)
    }

    /// A trace covering `start..end`.
    pub fn span(start: usize, end: usize) -> (r: Trace)
        ensures
            r == Trace(Some(Span { start, end })),
    {
        Trace(Some(Span { start, end }))
    }
}

} // verus!
