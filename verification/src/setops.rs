//! Set expressions over the regions of a Venn diagram. A term denotes a set
//! of diagram regions encoded as bits of a `u8`; evaluating a term combines
//! its operands' regions with bitwise operations. The drawing of these
//! expressions is an outside concern; this module is the expression model it
//! consumes.
use vstd::prelude::*;

verus! {

/// Region bits of the first set of the three-set diagrams.
pub const S1: u8 = 0b1111000;

/// Region bits of the second set of the three-set diagrams.
pub const S2: u8 = 0b0101110;

/// Region bits of the third set of the three-set diagrams.
pub const S3: u8 = 0b0011011;

/// A binary set operation.
#[derive(Debug, Clone, Copy, PartialEq, Eq, PartialOrd, Ord, Hash)]
pub enum Operator {
    Intersection,
    Union,
    Difference,
    SymmetricDifference,
}

impl Operator {
    /// The region set an operator yields from its operands' region sets.
    pub open spec fn spec_apply(self, lhs: u8, rhs: u8) -> u8 {
        match self {
            Operator::Intersection => lhs & rhs,
            Operator::Union => lhs | rhs,
            Operator::Difference => (lhs ^ rhs) & lhs,
            Operator::SymmetricDifference => lhs ^ rhs,
        }
    }

    /// Applies the operator to two region sets.
    pub fn apply(&self, lhs: u8, rhs: u8) -> (r: u8)
        ensures
            r == self.spec_apply(lhs, rhs),
    {
        match self {
            Operator::Intersection => lhs & rhs,
            Operator::Union => lhs | rhs,
            Operator::Difference => (lhs ^ rhs) & lhs,
            Operator::SymmetricDifference => lhs ^ rhs,
        }
    }
}

/// A set expression: a literal region set, or an operator over two subterms.
#[derive(Debug, PartialEq, Eq, PartialOrd, Ord, Hash)]
pub enum Term {
    Unary(u8),
    Binary(Box<Term>, Operator, Box<Term>),
}

impl Term {
    /// The region set a term denotes.
    pub open spec fn spec_eval(self) -> u8
        decreases self,
    {
        match self {
            Term::Unary(s) => s,
            Term::Binary(lhs, op, rhs) => op.spec_apply(lhs.spec_eval(), rhs.spec_eval()),
        }
    }

    /// The number of nodes in the term.
    pub open spec fn spec_count(self) -> nat
        decreases self,
    {
        match self {
            Term::Unary(_) => 1,
            Term::Binary(lhs, _, rhs) => lhs.spec_count() + 1 + rhs.spec_count(),
        }
    }

    /// Evaluates the term to the region set it denotes.
    pub fn eval(&self) -> (r: u8)
        ensures
            r == self.spec_eval(),
        decreases *self,
    {
        match self {
            Term::Unary(s) => *s,
            Term::Binary(lhs, op, rhs) => op.apply(lhs.eval(), rhs.eval()),
        }
    }

    /// Counts the nodes of the term.
    pub fn count(&self) -> (r: usize)
        requires
            self.spec_count() <= usize::MAX,
        ensures
            r == self.spec_count(),
        decreases *self,
    {
        match self {
            Term::Unary(_) => 1,
            Term::Binary(lhs, _, rhs) => {
                let l = lhs.count();
                let r = rhs.count();
                l + 1 + r
            },
        }
    }
}

} // verus!
