//! The section navigation tree: an ordered tree mirroring section nesting.
//! One tree is rebuilt fresh every pass while sibling queries are answered
//! against the finished tree built during the prior pass, so that
//! previous/next-chapter links can be computed on the second pass from the
//! structure discovered on the first.
use vstd::prelude::*;

verus! {

/// One node of the navigation tree: a section id and its subsections.
#[derive(Debug)]
pub struct HStructure {
    pub id: String,
    pub children: Vec<HStructure>,
}

/// Whether `p` names a node of `s`: each component indexes into the children
/// of the node the previous components reached.
pub open spec fn path_valid(s: HStructure, p: Seq<usize>) -> bool
    decreases p.len(),
{
    p.len() == 0 || (p[0] < s.children@.len() && path_valid(
        s.children@[p[0] as int],
        p.drop_first(),
    ))
}

/// The number of children of the node that `p` names in `s`.
pub open spec fn spec_child_count(s: HStructure, p: Seq<usize>) -> nat
    decreases p.len(),
{
    if p.len() == 0 {
        s.children@.len()
    } else {
        spec_child_count(s.children@[p[0] as int], p.drop_first())
    }
}

/// The id of the node that `p` names in `s`, or `None` where the path leads
/// outside the tree.
pub open spec fn spec_id_at(s: HStructure, p: Seq<usize>) -> Option<Seq<char>>
    decreases p.len(),
{
    if p.len() == 0 {
        Some(s.id@)
    } else if p[0] < s.children@.len() {
        spec_id_at(s.children@[p[0] as int], p.drop_first())
    } else {
        None
    }
}

/// `p` with its last component decremented, or `None` when that underflows.
pub open spec fn spec_prev_path(p: Seq<usize>) -> Option<Seq<usize>> {
    if p.len() == 0 {
        Some(p)
    } else if p.last() == 0 {
        None
    } else {
        Some(p.update(p.len() - 1, (p.last() - 1) as usize))
    }
}

/// `p` with its last component incremented, or `None` when that overflows.
pub open spec fn spec_next_path(p: Seq<usize>) -> Option<Seq<usize>> {
    if p.len() == 0 {
        Some(p)
    } else if p.last() == usize::MAX {
        None
    } else {
        Some(p.update(p.len() - 1, (p.last() + 1) as usize))
    }
}

/// The id of the sibling that a path names, or `None` where there is no such
/// node: `None` from the path adjustment or a path outside the tree.
pub open spec fn spec_sibling_id(s: HStructure, q: Option<Seq<usize>>) -> Option<Seq<char>> {
    match q {
        None => None,
        Some(p) => spec_id_at(s, p),
    }
}

/// Copies a path of indices.
fn copy_path(p: &Vec<usize>) -> (q: Vec<usize>)
    ensures
        q@ == p@,
{
    let mut q: Vec<usize> = Vec::new();
    let n = p.len();
    let mut j: usize = 0;
    while j < n
        invariant
            j <= n,
            n == p@.len(),
            q@ =~= p@.subrange(0, j as int),
        decreases n - j,
    {
        q.push(p[j]);
        proof {
            assert(q@ =~= p@.subrange(0, j as int + 1));
        }
        j = j + 1;
    }
    proof {
        assert(p@.subrange(0, n as int) =~= p@);
    }
    q
}

/// A valid path stays valid when shortened.
pub proof fn lemma_path_valid_prefix(s: HStructure, p: Seq<usize>, k: int)
    requires
        path_valid(s, p),
        0 <= k <= p.len(),
    ensures
        path_valid(s, p.subrange(0, k)),
    decreases p.len(),
{
    if p.len() == 0 || k == 0 {
        assert(p.subrange(0, k) =~= Seq::<usize>::empty());
    } else {
        lemma_path_valid_prefix(s.children@[p[0] as int], p.drop_first(), k - 1);
        assert(p.subrange(0, k).drop_first() =~= p.drop_first().subrange(0, k - 1));
    }
}

impl HStructure {
    /// An empty root.
    pub fn empty() -> (r: HStructure)
        ensures
            r.id@ == Seq::<char>::empty(),
            r.children@ == Seq::<HStructure>::empty(),
    {
        HStructure { id: String::new(), children: Vec::new() }
    }

    /// Walks `p` from component `off` on and returns the id of the node it
    /// reaches, or `None` where the path leads outside the tree.
    fn id_at(&self, p: &Vec<usize>, off: usize) -> (r: Option<&str>)
        requires
            off <= p@.len(),
        ensures
            match r {
                Some(s) => spec_id_at(*self, p@.subrange(off as int, p@.len() as int)) == Some(
                    s@,
                ),
                None => spec_id_at(*self, p@.subrange(off as int, p@.len() as int)) is None,
            },
        decreases p@.len() - off,
    {
        let ghost q = p@.subrange(off as int, p@.len() as int);
        if off == p.len() {
            assert(q.len() == 0);
            Some(self.id.as_str())
        } else {
            let i = p[off];
            assert(q[0] == i);
            if i < self.children.len() {
                proof {
                    assert(q.drop_first() =~= p@.subrange(off as int + 1, p@.len() as int));
                }
                self.children[i].id_at(p, off + 1)
            } else {
                None
            }
        }
    }

    /// Appends a node of id `id` to the children of the node that `p` names
    /// from component `off` on; hands back the rebuilt tree and the new
    /// node's index among its siblings.
    fn insert_at(self, p: &Vec<usize>, off: usize, id: String) -> (r: (HStructure, usize))
        requires
            off <= p@.len(),
            path_valid(self, p@.subrange(off as int, p@.len() as int)),
        ensures
            r.1 == spec_child_count(self, p@.subrange(off as int, p@.len() as int)),
            path_valid(r.0, p@.subrange(off as int, p@.len() as int).push(r.1)),
            spec_id_at(r.0, p@.subrange(off as int, p@.len() as int).push(r.1)) == Some(id@),
            spec_child_count(r.0, p@.subrange(off as int, p@.len() as int).push(r.1)) == 0,
            forall|q2: Seq<usize>| #[trigger]
                path_valid(self, q2) ==> path_valid(r.0, q2) && spec_id_at(r.0, q2) == spec_id_at(
                    self,
                    q2,
                ),
        decreases p@.len() - off,
    {
        let ghost q = p@.subrange(off as int, p@.len() as int);
        let mut node = self;
        if off == p.len() {
            assert(q.len() == 0);
            let idx = node.children.len();
            let child = HStructure { id, children: Vec::new() };
            let ghost child_snap = child;
            node.children.push(child);
            proof {
                let qp = q.push(idx);
                assert(qp.len() == 1);
                assert(qp[0] == idx);
                assert(node.children@[idx as int] == child_snap);
                assert(qp.drop_first() =~= Seq::<usize>::empty());
                assert(path_valid(child_snap, qp.drop_first()));
                assert(path_valid(node, qp));
                assert(spec_id_at(child_snap, qp.drop_first()) == Some(child_snap.id@));
                assert(spec_id_at(node, qp) == Some(child_snap.id@));
                assert(spec_child_count(child_snap, qp.drop_first()) == 0);
                assert(spec_child_count(node, qp) == 0);
                assert forall|q2: Seq<usize>| #[trigger]
                    path_valid(self, q2) implies path_valid(node, q2) && spec_id_at(node, q2)
                    == spec_id_at(self, q2) by {
                    if q2.len() > 0 {
                        assert(node.children@[q2[0] as int] == self.children@[q2[0] as int]);
                    }
                }
            }
            (node, idx)
        } else {
            let i = p[off];
            assert(q[0] == i);
            proof {
                assert(q.drop_first() =~= p@.subrange(off as int + 1, p@.len() as int));
            }
            let ghost idv = id@;
            let child = node.children.remove(i);
            let (new_child, idx) = child.insert_at(p, off + 1, id);
            node.children.insert(i, new_child);
            proof {
                assert(node.children@ =~= self.children@.update(i as int, new_child));
                let qp = q.push(idx);
                assert(qp[0] == i);
                assert(qp.drop_first() =~= p@.subrange(off as int + 1, p@.len() as int).push(idx));
                assert(node.children@[i as int] == new_child);
                assert(node.children@.len() == self.children@.len());
                assert(path_valid(new_child, qp.drop_first()));
                assert(path_valid(node, qp));
                assert(spec_id_at(new_child, qp.drop_first()) == Some(idv));
                assert(spec_id_at(node, qp) == Some(idv));
                assert(spec_child_count(new_child, qp.drop_first()) == 0);
                assert(spec_child_count(node, qp) == 0);
                assert forall|q2: Seq<usize>| #[trigger]
                    path_valid(self, q2) implies path_valid(node, q2) && spec_id_at(node, q2)
                    == spec_id_at(self, q2) by {
                    if q2.len() > 0 {
                        if q2[0] == i {
                            assert(node.children@[q2[0] as int] == new_child);
                            assert(self.children@[q2[0] as int] == child);
                            assert(path_valid(child, q2.drop_first()));
                        } else {
                            assert(node.children@[q2[0] as int] == self.children@[q2[0] as int]);
                        }
                    }
                }
            }
            (node, idx)
        }
    }
}

/// The navigation state: the tree being built this pass, the finished tree
/// of the prior pass, and the path to the section currently open.
#[derive(Debug)]
pub struct HSections {
    structure: HStructure,
    finished_structure: HStructure,
    current_path: Vec<usize>,
}

impl HSections {
    /// The path currently open, as ghost data for contracts.
    pub closed spec fn path(self) -> Seq<usize> {
        self.current_path@
    }

    /// The tree built so far this pass.
    pub closed spec fn tree(self) -> HStructure {
        self.structure
    }

    /// The finished tree of the prior pass.
    pub closed spec fn finished(self) -> HStructure {
        self.finished_structure
    }

    /// The current path names a node of the tree being built.
    pub open spec fn wf(self) -> bool {
        path_valid(self.tree(), self.path())
    }

    /// Fresh navigation state: empty trees, empty path.
    pub fn new() -> (r: HSections)
        ensures
            r.wf(),
            r.path() == Seq::<usize>::empty(),
            r.tree().id@ == Seq::<char>::empty(),
            r.tree().children@ == Seq::<HStructure>::empty(),
            r.finished().id@ == Seq::<char>::empty(),
            r.finished().children@ == Seq::<HStructure>::empty(),
    {
        HSections {
            structure: HStructure::empty(),
            finished_structure: HStructure::empty(),
            current_path: Vec::new(),
        }
    }

    /// Ends a pass: the tree built so far becomes the finished tree, and a
    /// fresh empty tree and path start the next pass.
    pub fn reset(&mut self)
        ensures
            final(self).wf(),
            final(self).finished() == old(self).tree(),
            final(self).path() == Seq::<usize>::empty(),
            final(self).tree().id@ == Seq::<char>::empty(),
            final(self).tree().children@ == Seq::<HStructure>::empty(),
    {
        self.current_path = Vec::new();
        let mut s = HStructure::empty();
        core::mem::swap(&mut self.structure, &mut s);
        self.finished_structure = s;
    }

    /// Enters a new section: appends a child of id `id` under the node the
    /// current path names and extends the path to it.
    pub fn push(&mut self, id: String, second_iteration: bool)
        requires
            old(self).wf(),
        ensures
            final(self).wf(),
            final(self).finished() == old(self).finished(),
            final(self).path() == old(self).path().push(
                spec_child_count(old(self).tree(), old(self).path()) as usize,
            ),
            spec_id_at(final(self).tree(), final(self).path()) == Some(id@),
            spec_child_count(final(self).tree(), final(self).path()) == 0,
            forall|q2: Seq<usize>| #[trigger]
                path_valid(old(self).tree(), q2) ==> path_valid(final(self).tree(), q2)
                    && spec_id_at(final(self).tree(), q2) == spec_id_at(old(self).tree(), q2),
    {
        let _ = second_iteration;
        let mut s = HStructure::empty();
        core::mem::swap(&mut self.structure, &mut s);
        proof {
            assert(self.current_path@.subrange(0, self.current_path@.len() as int)
                =~= self.current_path@);
        }
        let (new_s, idx) = s.insert_at(&self.current_path, 0, id);
        self.structure = new_s;
        self.current_path.push(idx);
    }

    /// Leaves the current section: shortens the path by one.
    pub fn pop(&mut self)
        requires
            old(self).wf(),
        ensures
            final(self).wf(),
            final(self).finished() == old(self).finished(),
            final(self).tree() == old(self).tree(),
            final(self).path() == if old(self).path().len() == 0 {
                old(self).path()
            } else {
                old(self).path().drop_last()
            },
    {
        let popped = self.current_path.pop();
        proof {
            if old(self).path().len() > 0 {
                lemma_path_valid_prefix(
                    self.structure,
                    old(self).path(),
                    old(self).path().len() - 1,
                );
                assert(old(self).path().subrange(0, old(self).path().len() - 1)
                    =~= old(self).path().drop_last());
            }
        }
        let _ = popped;
    }

    /// Consults the finished tree of the prior pass: the ids of the previous
    /// and the next sibling of the node the current path names there. For
    /// "previous" the last path component is decremented, for "next"
    /// incremented; `None` where that leaves the tree.
    pub fn previous_and_next_ids(&self) -> (r: (Option<&str>, Option<&str>))
        ensures
            match r.0 {
                Some(s) => spec_sibling_id(self.finished(), spec_prev_path(self.path())) == Some(
                    s@,
                ),
                None => spec_sibling_id(self.finished(), spec_prev_path(self.path())) is None,
            },
            match r.1 {
                Some(s) => spec_sibling_id(self.finished(), spec_next_path(self.path())) == Some(
                    s@,
                ),
                None => spec_sibling_id(self.finished(), spec_next_path(self.path())) is None,
            },
    {
        let n = self.current_path.len();
        let prev: Option<&str> = if n == 0 {
            proof {
                assert(self.current_path@.subrange(0, 0) =~= self.current_path@);
            }
            self.finished_structure.id_at(&self.current_path, 0)
        } else {
            let last = self.current_path[n - 1];
            if last == 0 {
                None
            } else {
                let mut q = copy_path(&self.current_path);
                let _ = q.pop();
                q.push(last - 1);
                proof {
                    assert(q@ =~= self.current_path@.update(
                        n - 1,
                        (self.current_path@.last() - 1) as usize,
                    ));
                    assert(q@.subrange(0, q@.len() as int) =~= q@);
                }
                self.finished_structure.id_at(&q, 0)
            }
        };
        let next: Option<&str> = if n == 0 {
            proof {
                assert(self.current_path@.subrange(0, 0) =~= self.current_path@);
            }
            self.finished_structure.id_at(&self.current_path, 0)
        } else {
            let last = self.current_path[n - 1];
            if last == usize::MAX {
                None
            } else {
                let mut q = copy_path(&self.current_path);
                let _ = q.pop();
                q.push(last + 1);
                proof {
                    assert(q@ =~= self.current_path@.update(
                        n - 1,
                        (self.current_path@.last() + 1) as usize,
                    ));
                    assert(q@.subrange(0, q@.len() as int) =~= q@);
                }
                self.finished_structure.id_at(&q, 0)
            }
        };
        (prev, next)
    }
}

} // verus!
