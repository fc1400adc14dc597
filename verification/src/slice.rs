//! Partitioning iterators: they take a unique owner of a slice payload apart
//! into one owner per element.
//!
//! The iterator keeps the unique handle it was made from until it is
//! released, and counts every element it yields in the header. Each element
//! it yields is a region of its own, taken off one end of what the iterator
//! still holds, so that no two of them overlap (see
//! [`crate::region::lemma_partition`]).

use vstd::prelude::*;

use crate::arc::settle_release;
use crate::arc::teardown_of;
use crate::arc::ArcMappedRwLock;
use crate::arc::CounterOverflow;
use crate::arc::Global;
use crate::arc::Teardown;
use crate::arc::UniqueArcMappedRwLock;
use crate::header::Category;
use crate::header::shared;
use crate::header::unique;
use crate::header::Decrement;
use crate::header::Increment;
use crate::header::HALF_MAX;
use crate::lock::MappedRwLock;
use crate::region::Region;

verus! {

/// A handle on one element of a slice payload.
pub type ElementRwLock<T> = MappedRwLock<T, [T]>;

/// A handle on a run of elements of a slice payload.
pub type SliceRwLock<T> = MappedRwLock<[T], [T]>;

/// A shared owner with access to one element of a slice payload.
pub type ArcElementRwLock<T, A = Global> = ArcMappedRwLock<T, [T], A>;

/// A shared owner with access to a run of elements of a slice payload.
pub type ArcSliceRwLock<T, A = Global> = ArcMappedRwLock<[T], [T], A>;

/// A unique owner with access to one element of a slice payload.
pub type UniqueArcElementRwLock<T, A = Global> = UniqueArcMappedRwLock<T, [T], A>;

/// A unique owner with access to a run of elements of a slice payload.
pub type UniqueArcSliceRwLock<T, A = Global> = UniqueArcMappedRwLock<[T], [T], A>;

/// Yields a shared owner for each element of a slice payload, from either
/// end.
pub struct Iter<T, A = Global> {
    pub(crate) lock: MappedRwLock<[T], [T]>,
    pub(crate) allocator: A,
}

/// Yields a unique owner for each element of a slice payload, from either
/// end.
pub struct IterMut<T, A = Global> {
    pub(crate) lock: MappedRwLock<[T], [T]>,
    pub(crate) allocator: A,
}

impl<T, A> UniqueArcMappedRwLock<[T], [T], A> {
    /// Turns the owner into an iterator over shared owners of its elements.
    /// The iterator holds the unique handle that the owner held.
    pub fn iter(self) -> (iter: Iter<T, A>)
        ensures
            iter.remaining() == self.spec_lock().subfield(),
            iter.spec_lock().len() == self.spec_lock().len(),
            iter.spec_lock().allocation() == self.spec_lock().allocation(),
            iter.spec_allocator() == self.spec_allocator(),
    {
        let (lock, allocator) = self.into_parts();
        Iter { lock, allocator }
    }

    /// Turns the owner into an iterator over unique owners of its elements.
    /// The iterator holds the unique handle that the owner held.
    pub fn iter_mut(self) -> (iter: IterMut<T, A>)
        ensures
            iter.remaining() == self.spec_lock().subfield(),
            iter.spec_lock().len() == self.spec_lock().len(),
            iter.spec_lock().allocation() == self.spec_lock().allocation(),
            iter.spec_allocator() == self.spec_allocator(),
    {
        let (lock, allocator) = self.into_parts();
        IterMut { lock, allocator }
    }
}

impl<T, A> Iter<T, A> {
    /// The handle that the iterator holds: its subfield is what has not been
    /// yielded yet.
    pub closed spec fn spec_lock(&self) -> MappedRwLock<[T], [T]> {
        self.lock
    }

    /// The allocator that made the allocation.
    pub closed spec fn spec_allocator(&self) -> A {
        self.allocator
    }

    /// The elements that have not been yielded yet.
    pub closed spec fn spec_remaining(&self) -> Region {
        self.lock.subfield()
    }

    /// The elements that have not been yielded yet.
    #[verifier::when_used_as_spec(spec_remaining)]
    pub fn remaining(&self) -> (region: Region)
        ensures
            region == self.spec_remaining(),
            region == self.spec_lock().subfield(),
            region.start + region.len <= self.spec_lock().len(),
    {
        self.lock.subfield()
    }

    /// Takes one element off an end of what the iterator holds and yields a
    /// shared owner of it, counted in the shared half of the header.
    fn take(&mut self, front: bool) -> (item: Option<
        Result<ArcElementRwLock<T, A>, CounterOverflow>,
    >) where A: Clone
        ensures
            final(self).spec_lock().len() == old(self).spec_lock().len(),
            final(self).spec_lock().allocation() == old(self).spec_lock().allocation(),
            final(self).spec_allocator() == old(self).spec_allocator(),
            old(self).remaining().peel(front) is None ==> item is None && final(self).remaining()
                == old(self).remaining(),
            old(self).remaining().peel(front) matches Some((element, rest)) ==> match item {
                Some(Ok(owner)) => owner.spec_lock().subfield() == element
                    && owner.spec_lock().len() == old(self).spec_lock().len()
                    && owner.spec_lock().allocation() == old(self).spec_lock().allocation()
                    && vstd::pervasive::cloned(old(self).spec_allocator(), owner.spec_allocator())
                    && final(self).remaining() == rest,
                Some(Err(overflow)) => final(self).remaining() == old(self).remaining()
                    && shared(overflow.previous) == HALF_MAX,
                None => false,
            },
    {
        let held: Region = self.lock.subfield();
        let parts: Option<(Region, Region)> = if front {
            held.split_first()
        } else {
            held.split_last()
        };
        match parts {
            None => None,
            Some((element, rest)) => {
                let counted: Increment = self.lock.header().increment_shared_counter();
                if counted.overflowed {
                    return Some(Err(CounterOverflow { previous: counted.previous }));
                }
                let lock: MappedRwLock<T, [T]> = self.lock.sibling(element);
                self.lock.remap(rest);
                Some(Ok(ArcMappedRwLock::from_parts(lock, self.allocator.clone())))
            },
        }
    }

    /// Yields a shared owner of the first element not yielded yet, or nothing
    /// when none is left. Where the shared half of the header was full, the
    /// answer is the overflow, and the iterator holds what it held.
    pub fn next(&mut self) -> (item: Option<
        Result<ArcElementRwLock<T, A>, CounterOverflow>,
    >) where A: Clone
        ensures
            final(self).spec_lock().len() == old(self).spec_lock().len(),
            final(self).spec_lock().allocation() == old(self).spec_lock().allocation(),
            final(self).spec_allocator() == old(self).spec_allocator(),
            old(self).remaining().peel(true) is None ==> item is None && final(self).remaining()
                == old(self).remaining(),
            old(self).remaining().peel(true) matches Some((element, rest)) ==> match item {
                Some(Ok(owner)) => owner.spec_lock().subfield() == element
                    && owner.spec_lock().len() == old(self).spec_lock().len()
                    && owner.spec_lock().allocation() == old(self).spec_lock().allocation()
                    && vstd::pervasive::cloned(old(self).spec_allocator(), owner.spec_allocator())
                    && final(self).remaining() == rest,
                Some(Err(overflow)) => final(self).remaining() == old(self).remaining()
                    && shared(overflow.previous) == HALF_MAX,
                None => false,
            },
    {
        self.take(true)
    }

    /// Yields a shared owner of the last element not yielded yet, or nothing
    /// when none is left. Where the shared half of the header was full, the
    /// answer is the overflow, and the iterator holds what it held.
    pub fn next_back(&mut self) -> (item: Option<
        Result<ArcElementRwLock<T, A>, CounterOverflow>,
    >) where A: Clone
        ensures
            final(self).spec_lock().len() == old(self).spec_lock().len(),
            final(self).spec_lock().allocation() == old(self).spec_lock().allocation(),
            final(self).spec_allocator() == old(self).spec_allocator(),
            old(self).remaining().peel(false) is None ==> item is None && final(self).remaining()
                == old(self).remaining(),
            old(self).remaining().peel(false) matches Some((element, rest)) ==> match item {
                Some(Ok(owner)) => owner.spec_lock().subfield() == element
                    && owner.spec_lock().len() == old(self).spec_lock().len()
                    && owner.spec_lock().allocation() == old(self).spec_lock().allocation()
                    && vstd::pervasive::cloned(old(self).spec_allocator(), owner.spec_allocator())
                    && final(self).remaining() == rest,
                Some(Err(overflow)) => final(self).remaining() == old(self).remaining()
                    && shared(overflow.previous) == HALF_MAX,
                None => false,
            },
    {
        self.take(false)
    }

    /// Yields every element not yielded yet, front to back: one shared owner
    /// for each, in the order of the elements, after which nothing is left.
    /// Where a half of the header was full, the answer is the overflow.
    pub fn drain(&mut self) -> (items: Result<
        Vec<ArcElementRwLock<T, A>>,
        CounterOverflow,
    >) where A: Clone
        ensures
            final(self).spec_lock().len() == old(self).spec_lock().len(),
            final(self).spec_lock().allocation() == old(self).spec_lock().allocation(),
            final(self).spec_allocator() == old(self).spec_allocator(),
            items matches Err(overflow) ==> shared(overflow.previous) == HALF_MAX,
            items matches Ok(owners) ==> {
                &&& owners@.len() == old(self).remaining().len
                &&& final(self).remaining().len == 0
                &&& forall|i: int|
                    0 <= i < owners@.len() ==> {
                        &&& (#[trigger] owners@[i]).spec_lock().subfield() == (Region {
                            start: (old(self).remaining().start + i) as usize,
                            len: 1,
                        })
                        &&& owners@[i].spec_lock().len() == old(self).spec_lock().len()
                        &&& owners@[i].spec_lock().allocation() == old(
                            self,
                        ).spec_lock().allocation()
                        &&& vstd::pervasive::cloned(
                            old(self).spec_allocator(),
                            owners@[i].spec_allocator(),
                        )
                    }
            },
            old(self).remaining().len == 0 ==> (items matches Ok(owners) && owners@.len() == 0
                && final(self).remaining() == old(self).remaining()),
    {
        let ghost first = self.remaining();
        let mut owners: Vec<ArcElementRwLock<T, A>> = Vec::new();
        let mut left: usize = self.remaining().len;
        while left > 0
            invariant
                self.spec_lock().len() == old(self).spec_lock().len(),
                self.spec_lock().allocation() == old(self).spec_lock().allocation(),
                first == old(self).remaining(),
                first.start + first.len <= self.spec_lock().len(),
                owners@.len() + left == first.len,
                self.remaining() == (Region {
                    start: (first.start + owners@.len()) as usize,
                    len: left,
                }),
                forall|i: int|
                    0 <= i < owners@.len() ==> {
                        &&& (#[trigger] owners@[i]).spec_lock().subfield() == (Region {
                            start: (first.start + i) as usize,
                            len: 1,
                        })
                        &&& owners@[i].spec_lock().len() == old(self).spec_lock().len()
                        &&& owners@[i].spec_lock().allocation() == old(
                            self,
                        ).spec_lock().allocation()
                        &&& vstd::pervasive::cloned(
                            old(self).spec_allocator(),
                            owners@[i].spec_allocator(),
                        )
                    },
                self.spec_allocator() == old(self).spec_allocator(),
            decreases left,
        {
            match self.take(true) {
                Some(Ok(owner)) => {
                    owners.push(owner);
                    left = left - 1;
                },
                Some(Err(overflow)) => {
                    return Err(overflow);
                },
                None => {
                    return Ok(owners);
                },
            }
        }
        Ok(owners)
    }

    /// Gives up the unique handle that the iterator started with. The release
    /// that empties the header is told to free, and gets the allocator.
    pub fn release(self) -> (teardown: Teardown<A>)
        ensures
            teardown == teardown_of(
                Category::Unique,
                teardown.previous(),
                self.spec_allocator(),
            ),
    {
        let done: Decrement = self.lock.header().decrement_unique_counter();
        settle_release(Category::Unique, done.previous, self.allocator)
    }
}

impl<T, A> IterMut<T, A> {
    /// The handle that the iterator holds: its subfield is what has not been
    /// yielded yet.
    pub closed spec fn spec_lock(&self) -> MappedRwLock<[T], [T]> {
        self.lock
    }

    /// The allocator that made the allocation.
    pub closed spec fn spec_allocator(&self) -> A {
        self.allocator
    }

    /// The elements that have not been yielded yet.
    pub closed spec fn spec_remaining(&self) -> Region {
        self.lock.subfield()
    }

    /// The elements that have not been yielded yet.
    #[verifier::when_used_as_spec(spec_remaining)]
    pub fn remaining(&self) -> (region: Region)
        ensures
            region == self.spec_remaining(),
            region == self.spec_lock().subfield(),
            region.start + region.len <= self.spec_lock().len(),
    {
        self.lock.subfield()
    }

    /// Takes one element off an end of what the iterator holds and yields a
    /// unique owner of it, counted in the unique half of the header.
    fn take(&mut self, front: bool) -> (item: Option<
        Result<UniqueArcElementRwLock<T, A>, CounterOverflow>,
    >) where A: Clone
        ensures
            final(self).spec_lock().len() == old(self).spec_lock().len(),
            final(self).spec_lock().allocation() == old(self).spec_lock().allocation(),
            final(self).spec_allocator() == old(self).spec_allocator(),
            old(self).remaining().peel(front) is None ==> item is None && final(self).remaining()
                == old(self).remaining(),
            old(self).remaining().peel(front) matches Some((element, rest)) ==> match item {
                Some(Ok(owner)) => owner.spec_lock().subfield() == element
                    && owner.spec_lock().len() == old(self).spec_lock().len()
                    && owner.spec_lock().allocation() == old(self).spec_lock().allocation()
                    && vstd::pervasive::cloned(old(self).spec_allocator(), owner.spec_allocator())
                    && final(self).remaining() == rest,
                Some(Err(overflow)) => final(self).remaining() == old(self).remaining()
                    && unique(overflow.previous) == HALF_MAX,
                None => false,
            },
    {
        let held: Region = self.lock.subfield();
        let parts: Option<(Region, Region)> = if front {
            held.split_first()
        } else {
            held.split_last()
        };
        match parts {
            None => None,
            Some((element, rest)) => {
                let counted: Increment = self.lock.header().increment_unique_counter();
                if counted.overflowed {
                    return Some(Err(CounterOverflow { previous: counted.previous }));
                }
                let lock: MappedRwLock<T, [T]> = self.lock.sibling(element);
                self.lock.remap(rest);
                Some(Ok(UniqueArcMappedRwLock::from_parts(lock, self.allocator.clone())))
            },
        }
    }

    /// Yields a unique owner of the first element not yielded yet, or nothing
    /// when none is left. Where the unique half of the header was full, the
    /// answer is the overflow, and the iterator holds what it held.
    pub fn next(&mut self) -> (item: Option<
        Result<UniqueArcElementRwLock<T, A>, CounterOverflow>,
    >) where A: Clone
        ensures
            final(self).spec_lock().len() == old(self).spec_lock().len(),
            final(self).spec_lock().allocation() == old(self).spec_lock().allocation(),
            final(self).spec_allocator() == old(self).spec_allocator(),
            old(self).remaining().peel(true) is None ==> item is None && final(self).remaining()
                == old(self).remaining(),
            old(self).remaining().peel(true) matches Some((element, rest)) ==> match item {
                Some(Ok(owner)) => owner.spec_lock().subfield() == element
                    && owner.spec_lock().len() == old(self).spec_lock().len()
                    && owner.spec_lock().allocation() == old(self).spec_lock().allocation()
                    && vstd::pervasive::cloned(old(self).spec_allocator(), owner.spec_allocator())
                    && final(self).remaining() == rest,
                Some(Err(overflow)) => final(self).remaining() == old(self).remaining()
                    && unique(overflow.previous) == HALF_MAX,
                None => false,
            },
    {
        self.take(true)
    }

    /// Yields a unique owner of the last element not yielded yet, or nothing
    /// when none is left. Where the unique half of the header was full, the
    /// answer is the overflow, and the iterator holds what it held.
    pub fn next_back(&mut self) -> (item: Option<
        Result<UniqueArcElementRwLock<T, A>, CounterOverflow>,
    >) where A: Clone
        ensures
            final(self).spec_lock().len() == old(self).spec_lock().len(),
            final(self).spec_lock().allocation() == old(self).spec_lock().allocation(),
            final(self).spec_allocator() == old(self).spec_allocator(),
            old(self).remaining().peel(false) is None ==> item is None && final(self).remaining()
                == old(self).remaining(),
            old(self).remaining().peel(false) matches Some((element, rest)) ==> match item {
                Some(Ok(owner)) => owner.spec_lock().subfield() == element
                    && owner.spec_lock().len() == old(self).spec_lock().len()
                    && owner.spec_lock().allocation() == old(self).spec_lock().allocation()
                    && vstd::pervasive::cloned(old(self).spec_allocator(), owner.spec_allocator())
                    && final(self).remaining() == rest,
                Some(Err(overflow)) => final(self).remaining() == old(self).remaining()
                    && unique(overflow.previous) == HALF_MAX,
                None => false,
            },
    {
        self.take(false)
    }

    /// Yields every element not yielded yet, front to back: one unique owner
    /// for each, in the order of the elements, after which nothing is left.
    /// Where a half of the header was full, the answer is the overflow.
    pub fn drain(&mut self) -> (items: Result<
        Vec<UniqueArcElementRwLock<T, A>>,
        CounterOverflow,
    >) where A: Clone
        ensures
            final(self).spec_lock().len() == old(self).spec_lock().len(),
            final(self).spec_lock().allocation() == old(self).spec_lock().allocation(),
            final(self).spec_allocator() == old(self).spec_allocator(),
            items matches Err(overflow) ==> unique(overflow.previous) == HALF_MAX,
            items matches Ok(owners) ==> {
                &&& owners@.len() == old(self).remaining().len
                &&& final(self).remaining().len == 0
                &&& forall|i: int|
                    0 <= i < owners@.len() ==> {
                        &&& (#[trigger] owners@[i]).spec_lock().subfield() == (Region {
                            start: (old(self).remaining().start + i) as usize,
                            len: 1,
                        })
                        &&& owners@[i].spec_lock().len() == old(self).spec_lock().len()
                        &&& owners@[i].spec_lock().allocation() == old(
                            self,
                        ).spec_lock().allocation()
                        &&& vstd::pervasive::cloned(
                            old(self).spec_allocator(),
                            owners@[i].spec_allocator(),
                        )
                    }
            },
            old(self).remaining().len == 0 ==> (items matches Ok(owners) && owners@.len() == 0
                && final(self).remaining() == old(self).remaining()),
    {
        let ghost first = self.remaining();
        let mut owners: Vec<UniqueArcElementRwLock<T, A>> = Vec::new();
        let mut left: usize = self.remaining().len;
        while left > 0
            invariant
                self.spec_lock().len() == old(self).spec_lock().len(),
                self.spec_lock().allocation() == old(self).spec_lock().allocation(),
                first == old(self).remaining(),
                first.start + first.len <= self.spec_lock().len(),
                owners@.len() + left == first.len,
                self.remaining() == (Region {
                    start: (first.start + owners@.len()) as usize,
                    len: left,
                }),
                forall|i: int|
                    0 <= i < owners@.len() ==> {
                        &&& (#[trigger] owners@[i]).spec_lock().subfield() == (Region {
                            start: (first.start + i) as usize,
                            len: 1,
                        })
                        &&& owners@[i].spec_lock().len() == old(self).spec_lock().len()
                        &&& owners@[i].spec_lock().allocation() == old(
                            self,
                        ).spec_lock().allocation()
                        &&& vstd::pervasive::cloned(
                            old(self).spec_allocator(),
                            owners@[i].spec_allocator(),
                        )
                    },
                self.spec_allocator() == old(self).spec_allocator(),
            decreases left,
        {
            match self.take(true) {
                Some(Ok(owner)) => {
                    owners.push(owner);
                    left = left - 1;
                },
                Some(Err(overflow)) => {
                    return Err(overflow);
                },
                None => {
                    return Ok(owners);
                },
            }
        }
        Ok(owners)
    }

    /// Gives up the unique handle that the iterator started with. The release
    /// that empties the header is told to free, and gets the allocator.
    pub fn release(self) -> (teardown: Teardown<A>)
        ensures
            teardown == teardown_of(
                Category::Unique,
                teardown.previous(),
                self.spec_allocator(),
            ),
    {
        let done: Decrement = self.lock.header().decrement_unique_counter();
        settle_release(Category::Unique, done.previous, self.allocator)
    }
}

} // verus!
