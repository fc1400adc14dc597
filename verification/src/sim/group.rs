//! Groups of atoms, and the ways a simulation names a change to one of them.

use vstd::prelude::*;

verus! {

/// Information about atoms of the same type.
#[derive(Clone, Copy, Debug)]
pub struct AtomGroupInfo<T> {
    /// Unique identifier.
    pub id: usize,
    /// The index of the first atom of this group.
    pub start: usize,
    /// The index after the last atom of this group.
    pub end: usize,
    /// The mass of a single atom of this group.
    pub mass: T,
}

impl<T> AtomGroupInfo<T> {
    /// The indices of the atoms of this group.
    pub open spec fn span(&self) -> Set<int> {
        Set::new(|i: int| self.start <= i < self.end)
    }

    /// Whether the group's atoms are among the first `atoms` atoms.
    pub open spec fn fits(&self, atoms: int) -> bool {
        self.start <= self.end <= atoms
    }

    /// The number of atoms in the group.
    pub open spec fn spec_atoms(&self) -> usize {
        if self.start <= self.end {
            (self.end - self.start) as usize
        } else {
            0
        }
    }

    /// The number of atoms in the group.
    #[verifier::when_used_as_spec(spec_atoms)]
    pub fn atoms(&self) -> (n: usize)
        ensures
            n == self.spec_atoms(),
    {
        if self.start <= self.end {
            self.end - self.start
        } else {
            0
        }
    }

    /// The positions of this group among those of all groups, or nothing
    /// where the group's span does not lie within them.
    pub fn slice_of<'a, V>(&self, all: &'a [V]) -> (part: Option<&'a [V]>)
        ensures
            self.fits(all@.len() as int) ==> (part matches Some(own) && own@ == all@.subrange(
                self.start as int,
                self.end as int,
            )),
            !self.fits(all@.len() as int) ==> part is None,
    {
        if self.start <= self.end && self.end <= all.len() {
            Some(vstd::slice::slice_subrange(all, self.start, self.end))
        } else {
            None
        }
    }
}

/// A position that was changed, and the value it had before.
#[derive(Clone, Copy)]
pub struct ChangedPosition<T> {
    pub group_idx: usize,
    pub position_idx: usize,
    pub old_value: T,
}

/// A value that belongs to this group or to another one.
#[derive(Clone, Copy)]
pub enum GroupOption<T> {
    This(T),
    Other { group_idx: usize, value: T },
}

/// A value that belongs to this replica, to one of its neighbours or to
/// another one.
#[derive(Clone, Copy)]
pub enum ReplicaOption<T> {
    This(T),
    Prev(T),
    Next(T),
    Other { replica_idx: usize, value: T },
}

} // verus!
