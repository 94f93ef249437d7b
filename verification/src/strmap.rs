//! A string-keyed table with a `Map<Seq<char>, V>` view. Entries are kept as
//! a list where a later entry for the same key shadows an earlier one, so an
//! insertion is a plain push and lookups search from the newest entry back.
use vstd::prelude::*;
use crate::text::str_eq;

verus! {

/// Folds an entry list into the map it denotes; a later entry wins.
pub open spec fn map_of<V>(entries: Seq<(String, V)>) -> Map<Seq<char>, V>
    decreases entries.len(),
{
    if entries.len() == 0 {
        Map::empty()
    } else {
        map_of(entries.drop_last()).insert(entries.last().0@, entries.last().1)
    }
}

/// A table from strings to values of `V`.
#[derive(Clone, Debug)]
pub struct StrMap<V> {
    entries: Vec<(String, V)>,
}

impl<V> View for StrMap<V> {
    type V = Map<Seq<char>, V>;

    closed spec fn view(&self) -> Map<Seq<char>, V> {
        map_of(self.entries@)
    }
}

impl<V> StrMap<V> {
    /// An empty table.
    pub fn new() -> (r: StrMap<V>)
        ensures
            r@ == Map::<Seq<char>, V>::empty(),
    {
        StrMap { entries: Vec::new() }
    }

    /// Searches the first `i` entries, newest first, for `k`.
    fn get_from(&self, i: usize, k: &str) -> (r: Option<&V>)
        requires
            i <= self.entries@.len(),
        ensures
            match r {
                Some(v) => {
                    &&& map_of(self.entries@.subrange(0, i as int)).contains_key(k@)
                    &&& *v == map_of(self.entries@.subrange(0, i as int))[k@]
                },
                None => !map_of(self.entries@.subrange(0, i as int)).contains_key(k@),
            },
        decreases i,
    {
        if i == 0 {
            assert(self.entries@.subrange(0, 0) =~= Seq::<(String, V)>::empty());
            None
        } else {
            let entry = &self.entries[i - 1];
            proof {
                assert(self.entries@.subrange(0, i as int).drop_last() =~= self.entries@.subrange(
                    0,
                    i as int - 1,
                ));
                assert(self.entries@.subrange(0, i as int).last() == self.entries@[i as int - 1]);
            }
            if str_eq(entry.0.as_str(), k) {
                Some(&entry.1)
            } else {
                self.get_from(i - 1, k)
            }
        }
    }

    /// Looks `k` up.
    pub fn get(&self, k: &str) -> (r: Option<&V>)
        ensures
            match r {
                Some(v) => self@.contains_key(k@) && *v == self@[k@],
                None => !self@.contains_key(k@),
            },
    {
        proof {
            assert(self.entries@.subrange(0, self.entries@.len() as int) =~= self.entries@);
        }
        self.get_from(self.entries.len(), k)
    }

    /// Whether `k` is present.
    pub fn contains_key(&self, k: &str) -> (r: bool)
        ensures
            r == self@.contains_key(k@),
    {
        match self.get(k) {
            Some(_) => true,
            None => false,
        }
    }

    /// Binds `k` to `v`, shadowing any earlier binding.
    pub fn insert(&mut self, k: String, v: V)
        ensures
            final(self)@ == old(self)@.insert(k@, v),
    {
        let ghost k_view = k@;
        self.entries.push((k, v));
        proof {
            assert(self.entries@.drop_last() =~= old(self).entries@);
        }
    }
}

} // verus!
