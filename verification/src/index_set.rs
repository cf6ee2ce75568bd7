//! A set of child indices, kept in a `hashbrown::HashSet`.

use vstd::prelude::*;

verus! {

/// A set of child indices, kept in a `hashbrown::HashSet<usize>`.
#[verifier::external_body]
pub struct IndexSet {
    inner: hashbrown::HashSet<usize>,
}

/// The indices an [`IndexSet`] holds.
pub uninterp spec fn index_set_contents(s: IndexSet) -> Set<usize>;

impl View for IndexSet {
    type V = Set<usize>;

    open spec fn view(&self) -> Set<usize> {
        index_set_contents(*self)
    }
}

impl IndexSet {
    /// Calls `hashbrown::HashSet::new`, which creates an empty set.
    #[verifier::external_body]
    pub(crate) fn new() -> (s: Self)
        ensures
            index_set_contents(s) == Set::<usize>::empty(),
    {
        IndexSet { inner: hashbrown::HashSet::new() }
    }

    /// Calls `hashbrown::HashSet::contains`, which tells whether the index is held.
    #[verifier::external_body]
    pub(crate) fn contains(&self, i: usize) -> (b: bool)
        ensures
            b == index_set_contents(*self).contains(i),
    {
        self.inner.contains(&i)
    }

    /// Calls `hashbrown::HashSet::insert`, which adds the index and returns whether
    /// it was absent before.
    #[verifier::external_body]
    pub(crate) fn insert(&mut self, i: usize) -> (b: bool)
        ensures
            index_set_contents(*final(self)) == index_set_contents(*old(self)).insert(i),
            b == !index_set_contents(*old(self)).contains(i),
    {
        self.inner.insert(i)
    }

    /// Calls `hashbrown::HashSet::clear`, which removes all indices.
    #[verifier::external_body]
    pub(crate) fn clear(&mut self)
        ensures
            index_set_contents(*final(self)) == Set::<usize>::empty(),
    {
        self.inner.clear()
    }

    /// Calls `hashbrown::HashSet::len`, which returns the number of indices held.
    #[verifier::external_body]
    pub(crate) fn len(&self) -> (n: usize)
        ensures
            n == index_set_contents(*self).len(),
    {
        self.inner.len()
    }
}

} // verus!
