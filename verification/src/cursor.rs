//! Iteration over the entries of an archive by index.
//!
//! Entries are fetched from the native library one index at a time; the
//! iterator here owns only the index arithmetic.  The unverified shell
//! pairs it with the archive handle and turns each yielded index into an
//! entry lookup.

use vstd::prelude::*;

verus! {

/// Iterator state over the entries of a zip file: the next index to
/// yield and the total count, fixed when iteration starts.
pub struct ZipEntryIterator {
    current_index: usize,
    total_count: usize,
}

impl ZipEntryIterator {
    /// The next index never runs past the total.
    #[verifier::type_invariant]
    pub closed spec fn in_bounds(self) -> bool {
        self.current_index <= self.total_count
    }

    /// The next index to yield.
    pub closed spec fn spec_current(self) -> int {
        self.current_index as int
    }

    /// The number of entries iterated over.
    pub closed spec fn spec_total(self) -> int {
        self.total_count as int
    }

    /// Start iterating over `total_count` entries.
    pub fn new(total_count: usize) -> (it: ZipEntryIterator)
        ensures
            it.spec_current() == 0,
            it.spec_total() == total_count,
    {
        ZipEntryIterator { current_index: 0, total_count }
    }

    /// The next entry index, or `None` when all entries have been
    /// yielded.  Indices come out in order, each exactly once.
    pub fn next_index(&mut self) -> (r: Option<usize>)
        ensures
            final(self).spec_total() == old(self).spec_total(),
            old(self).spec_current() < old(self).spec_total() ==> (r matches Some(i)
                && i == old(self).spec_current()
                && final(self).spec_current() == old(self).spec_current() + 1),
            old(self).spec_current() >= old(self).spec_total() ==> (r is None
                && final(self).spec_current() == old(self).spec_current()),
    {
        proof {
            use_type_invariant(&*self);
        }
        if self.current_index >= self.total_count {
            return None;
        }
        let i = self.current_index;
        self.current_index = i + 1;
        Some(i)
    }

    /// How many entries are still to come.
    pub fn len(&self) -> (r: usize)
        ensures
            r == self.spec_total() - self.spec_current(),
    {
        proof {
            use_type_invariant(self);
        }
        self.total_count - self.current_index
    }

    /// The exact remaining count, in the shape iterator consumers expect:
    /// lower and upper bound coincide.
    pub fn size_hint(&self) -> (r: (usize, Option<usize>))
        ensures
            r.0 == self.spec_total() - self.spec_current(),
            r.1 matches Some(n) && n == self.spec_total() - self.spec_current(),
    {
        let rem = self.len();
        (rem, Some(rem))
    }
}

} // verus!
