//! Table instances: vectors of nullable function references.

use vstd::prelude::*;
use crate::address::FuncAddr;

verus! {

/// A defined table: reference slots and declared bounds.
pub struct DefinedTableInstance {
    elems: Vec<Option<FuncAddr>>,
    max: Option<u32>,
}

impl DefinedTableInstance {
    /// The slots held, as a specification-level sequence.
    pub closed spec fn view(&self) -> Seq<Option<FuncAddr>> {
        self.elems@
    }

    /// The declared maximum, if one was declared.
    pub closed spec fn spec_max(&self) -> Option<u32> {
        self.max
    }

    /// Creates a table of `initial` empty slots.
    pub fn new(initial: u32, max: Option<u32>) -> (t: Self)
        ensures
            t.view().len() == initial as nat,
            forall|i: int| 0 <= i < t.view().len() ==> t.view()[i] is None,
            t.spec_max() == max,
    {
        let elems: Vec<Option<FuncAddr>> = vec![None; initial as usize];
        proof {
            assert forall|i: int| 0 <= i < elems@.len() implies elems@[i] is None by {
                assert(cloned(None::<FuncAddr>, elems@[i]));
            }
        }
        DefinedTableInstance { elems, max }
    }

    /// The declared maximum, if one was declared.
    pub fn max_size(&self) -> (r: Option<u32>)
        ensures
            r == self.spec_max(),
    {
        self.max
    }

    /// The number of slots.
    pub fn len(&self) -> (r: usize)
        ensures
            r == self.view().len(),
    {
        self.elems.len()
    }

    /// The slot at `index`, or `None` for an index past the end.
    pub fn get(&self, index: usize) -> (r: Option<Option<FuncAddr>>)
        ensures
            match r {
                Some(slot) => index < self.view().len() && slot == self.view()[index as int],
                None => index >= self.view().len(),
            },
    {
        if index < self.elems.len() {
            Some(self.elems[index])
        } else {
            None
        }
    }

    /// Replaces the slot at `index`; fails exactly when the index is past
    /// the end.
    pub fn set(&mut self, index: usize, value: Option<FuncAddr>) -> (r: Result<(), ()>)
        ensures
            final(self).spec_max() == old(self).spec_max(),
            match r {
                Ok(()) => index < old(self).view().len() && final(self).view() == old(
                    self,
                ).view().update(index as int, value),
                Err(()) => index >= old(self).view().len() && final(self).view() == old(
                    self,
                ).view(),
            },
    {
        if index < self.elems.len() {
            self.elems[index] = value;
            Ok(())
        } else {
            Err(())
        }
    }
}

} // verus!
