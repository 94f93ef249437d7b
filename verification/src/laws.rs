//! Document-wide laws relating the crate's spec functions.
use vstd::prelude::*;
use crate::state::spec_hsection_numbering;
use crate::text::spec_decimal;

verus! {

/// The decimal values of `c[i ..= k]`, joined with dots.
pub open spec fn spec_dot_joined(c: Seq<usize>, i: int, k: int) -> Seq<char>
    decreases k - i + 1,
{
    if i < 0 || i > k || i >= c.len() {
        Seq::empty()
    } else if i == k {
        spec_decimal(c[i] as nat)
    } else {
        spec_decimal(c[i] as nat) + seq!['.'] + spec_dot_joined(c, i + 1, k)
    }
}

/// Headings nested to any depth carry the dot-joined numbering of their
/// ancestor counters: when the section counters hold an active block at
/// positions 1 through `k` and nothing deeper, the composed numbering
/// string is exactly the decimal counters of that block, dot-joined.
pub proof fn lemma_numbering_dot_joined(c: Seq<usize>, k: int)
    requires
        c.len() == 6,
        1 <= k <= 5,
        c[0] == 0,
        forall|j: int| 1 <= j <= k ==> c[j] != 0,
        forall|j: int| k < j < 6 ==> c[j] == 0,
    ensures
        spec_hsection_numbering(c, 0) == spec_dot_joined(c, 1, k),
{
    lemma_numbering_tail_empty(c, k + 1);
    lemma_numbering_block(c, 1, k);
    assert(spec_hsection_numbering(c, 0) == spec_hsection_numbering(c, 1));
}

/// Past the active block the composed numbering is empty.
proof fn lemma_numbering_tail_empty(c: Seq<usize>, i: int)
    requires
        c.len() == 6,
        1 <= i <= 6,
        forall|j: int| i <= j < 6 ==> c[j] == 0,
    ensures
        spec_hsection_numbering(c, i) == Seq::<char>::empty(),
    decreases 6 - i,
{
    if i < 6 {
        lemma_numbering_tail_empty(c, i + 1);
    }
}

/// Within the active block the composed numbering is the dot-joined tail.
proof fn lemma_numbering_block(c: Seq<usize>, i: int, k: int)
    requires
        c.len() == 6,
        1 <= i <= k <= 5,
        forall|j: int| i <= j <= k ==> c[j] != 0,
        forall|j: int| k < j < 6 ==> c[j] == 0,
    ensures
        spec_hsection_numbering(c, i) == spec_dot_joined(c, i, k),
    decreases k - i,
{
    if i == k {
        lemma_numbering_tail_empty(c, k + 1);
        assert(spec_hsection_numbering(c, i) =~= spec_dot_joined(c, i, k));
    } else {
        lemma_numbering_block(c, i + 1, k);
        assert(spec_hsection_numbering(c, i) =~= spec_dot_joined(c, i, k));
    }
}

} // verus!
