//! Allocations and the owning wrappers that keep them alive.
//!
//! A wrapper is a mapped handle together with the allocator that made the
//! allocation. Each live wrapper is counted in the header, in the half of its
//! category. Releasing a wrapper takes it off the count; the release that
//! empties the header is told to tear the allocation down, and is handed the
//! allocator to do it with.

use std::sync::Arc;
use vstd::prelude::*;

use crate::header::decrement_empties;
use crate::header::frees;
use crate::header::shared;
use crate::header::unit;
use crate::header::Category;
use crate::header::Decrement;
use crate::header::Event;
use crate::header::Header;
use crate::header::Increment;
use crate::header::HALF_MAX;
use crate::inner::InnerRwLock;
use crate::lock::MappedRwLock;
use crate::region::Region;
use crate::word::EMPTY;

verus! {

/// One allocation: the reference-count header, and the lock in front of the
/// payload.
pub struct InnerArc {
    pub counter: Header,
    pub lock: InnerRwLock,
}

impl InnerArc {
    /// A fresh allocation for a payload of `len` elements, counted once in
    /// the category of its first owner.
    pub fn new(first: Category, len: usize) -> (inner: Self)
        ensures
            inner.lock.len == len,
            inner.counter.born() == unit(first),
            inner.lock.lock.spec_word().born() == EMPTY,
            !inner.lock.lock.born_poisoned(),
    {
        InnerArc { counter: Header::new(first), lock: InnerRwLock::new(len) }
    }
}

/// A half of the header was full when a handle was added to it; `previous`
/// is the header word that the addition found. This is fatal: the count is no
/// longer right, and the caller must not go on.
#[derive(Clone, Copy, Debug, PartialEq, Eq, Structural)]
pub struct CounterOverflow {
    pub previous: u64,
}

/// What the release of a wrapper leaves its caller to do.
#[derive(Debug)]
pub enum Teardown<A> {
    /// Other handles remain. `previous` is the header word before the
    /// release.
    Alive { previous: u64 },
    /// This was the last handle: the caller drops the payload in place and
    /// frees the allocation with `allocator`.
    Free { previous: u64, allocator: A },
}

impl<A> Teardown<A> {
    /// The header word before the release.
    pub open spec fn spec_previous(&self) -> u64 {
        match self {
            Teardown::Alive { previous } => *previous,
            Teardown::Free { previous, .. } => *previous,
        }
    }

    /// The header word before the release.
    #[verifier::when_used_as_spec(spec_previous)]
    pub fn previous(&self) -> (word: u64)
        ensures
            word == self.spec_previous(),
    {
        match self {
            Teardown::Alive { previous } => *previous,
            Teardown::Free { previous, .. } => *previous,
        }
    }

    /// Whether the caller has to tear the allocation down.
    pub fn is_free(&self) -> (free: bool)
        ensures
            free == (self is Free),
    {
        match self {
            Teardown::Alive { .. } => false,
            Teardown::Free { .. } => true,
        }
    }
}

/// What a release of a handle of `category` leaves to do when the header word
/// was `previous` before it: the release that found exactly its own unit
/// frees, every other leaves the allocation alive.
pub open spec fn teardown_of<A>(category: Category, previous: u64, allocator: A) -> Teardown<A> {
    if previous == unit(category) {
        Teardown::Free { previous, allocator }
    } else {
        Teardown::Alive { previous }
    }
}

/// A release is told to free exactly when it is the release that empties the
/// header, which happens once in the life of an allocation (see
/// [`crate::header::lemma_exactly_once`]).
pub proof fn lemma_free_iff_emptied<A>(category: Category, previous: u64, allocator: A)
    ensures
        teardown_of(category, previous, allocator) is Free <==> frees(
            previous,
            Event::Drop(category),
        ),
        teardown_of(category, previous, allocator) matches Teardown::Free { allocator: handed, .. }
            ==> handed == allocator,
{
}

/// Says what a release of a handle of `category` leaves to do when it found
/// the header word `previous`, handing the allocator on only to the release
/// that frees.
pub fn settle_release<A>(category: Category, previous: u64, allocator: A) -> (teardown: Teardown<A>)
    ensures
        teardown == teardown_of(category, previous, allocator),
{
    if decrement_empties(category, previous) {
        Teardown::Free { previous, allocator }
    } else {
        Teardown::Alive { previous }
    }
}

/// Stands for the allocator of the process, where an owner names no other.
#[derive(Clone, Copy, Debug, PartialEq, Eq, Structural)]
pub struct Global;

/// A shared owner of an allocation, with access to one subfield of its
/// payload. It can be duplicated; each duplicate is counted in the shared
/// half of the header.
pub struct ArcMappedRwLock<T: ?Sized, U: ?Sized, A = Global> {
    pub(crate) lock: MappedRwLock<T, U>,
    pub(crate) allocator: A,
}

/// A unique owner of an allocation, with access to one subfield of its
/// payload. It cannot be duplicated, only split; it is counted in the unique
/// half of the header.
pub struct UniqueArcMappedRwLock<T: ?Sized, U: ?Sized, A = Global> {
    pub(crate) lock: MappedRwLock<T, U>,
    pub(crate) allocator: A,
}

impl<T: ?Sized, U: ?Sized, A> ArcMappedRwLock<T, U, A> {
    /// The handle inside the wrapper.
    pub closed spec fn spec_lock(&self) -> MappedRwLock<T, U> {
        self.lock
    }

    /// An owner made of a handle that is already counted in the header, and
    /// of the allocator of its allocation.
    pub(crate) fn from_parts(lock: MappedRwLock<T, U>, allocator: A) -> (owner: Self)
        ensures
            owner.spec_lock() == lock,
            owner.spec_allocator() == allocator,
    {
        ArcMappedRwLock { lock, allocator }
    }

    /// The handle and the allocator of an owner, which stays counted in the
    /// header.
    pub(crate) fn into_parts(self) -> (parts: (MappedRwLock<T, U>, A))
        ensures
            parts.0 == self.spec_lock(),
            parts.1 == self.spec_allocator(),
    {
        (self.lock, self.allocator)
    }

    /// The allocator that made the allocation.
    pub closed spec fn spec_allocator(&self) -> A {
        self.allocator
    }

    /// A shared owner of a fresh allocation for a payload of `len` elements,
    /// with access to all of them. The header counts one shared handle.
    pub fn new(len: usize, allocator: A) -> (owner: Self)
        ensures
            owner.spec_lock().len() == len,
            owner.spec_lock().subfield() == Region::spec_whole(len),
            owner.spec_allocator() == allocator,
            owner.spec_lock().allocation().counter.born() == unit(Category::Shared),
            owner.spec_lock().allocation().lock.lock.spec_word().born() == EMPTY,
            !owner.spec_lock().allocation().lock.lock.born_poisoned(),
    {
        let inner = Arc::new(InnerArc::new(Category::Shared, len));
        ArcMappedRwLock { lock: MappedRwLock::assemble(inner, Region::whole(len)), allocator }
    }

    /// A shared owner of an allocation that was put together elsewhere, with
    /// access to all of its payload. The header of `inner` must count this
    /// owner already.
    pub fn adopt(inner: InnerArc, allocator: A) -> (owner: Self)
        ensures
            owner.spec_lock().len() == inner.lock.len,
            owner.spec_lock().subfield() == Region::spec_whole(inner.lock.len),
            owner.spec_lock().allocation() == inner,
            owner.spec_allocator() == allocator,
    {
        let len: usize = inner.lock.len;
        ArcMappedRwLock { lock: MappedRwLock::assemble(Arc::new(inner), Region::whole(len)), allocator }
    }

    /// The handle inside the wrapper.
    pub fn as_lock(&self) -> (lock: &MappedRwLock<T, U>)
        ensures
            *lock == self.spec_lock(),
    {
        &self.lock
    }

    /// The handle inside the wrapper, for locking its subfield for writing.
    pub fn as_lock_mut(&mut self) -> (lock: &mut MappedRwLock<T, U>)
        ensures
            *lock == old(self).spec_lock(),
            final(self).spec_lock() == *final(lock),
            final(self).spec_allocator() == old(self).spec_allocator(),
    {
        &mut self.lock
    }

    /// One more shared owner of the same allocation and subfield. The header
    /// counts one shared handle more; where its shared half was full already,
    /// the answer is the overflow and no owner.
    pub fn try_clone(&self) -> (copy: Result<Self, CounterOverflow>) where A: Clone
        ensures
            copy matches Ok(owner) ==> owner.spec_lock().subfield() == self.spec_lock().subfield()
                && owner.spec_lock().len() == self.spec_lock().len()
                && owner.spec_lock().allocation() == self.spec_lock().allocation()
                && vstd::pervasive::cloned(self.spec_allocator(), owner.spec_allocator()),
            copy matches Err(overflow) ==> shared(overflow.previous) == HALF_MAX,
    {
        let counted: Increment = self.lock.header().increment_shared_counter();
        if counted.overflowed {
            return Err(CounterOverflow { previous: counted.previous });
        }
        proof {
            use_type_invariant(&self.lock);
        }
        let region: Region = self.lock.subfield();
        Ok(ArcMappedRwLock { lock: self.lock.sibling(region), allocator: self.allocator.clone() })
    }

    /// Gives the ownership up. The header counts one shared handle less; the
    /// release that empties it is told to free, and gets the allocator.
    pub fn release(self) -> (teardown: Teardown<A>)
        ensures
            teardown == teardown_of(
                Category::Shared,
                teardown.previous(),
                self.spec_allocator(),
            ),
    {
        let done: Decrement = self.lock.header().decrement_shared_counter();
        settle_release(Category::Shared, done.previous, self.allocator)
    }
}

impl<T: ?Sized, U: ?Sized, A> UniqueArcMappedRwLock<T, U, A> {
    /// The handle inside the wrapper.
    pub closed spec fn spec_lock(&self) -> MappedRwLock<T, U> {
        self.lock
    }

    /// An owner made of a handle that is already counted in the header, and
    /// of the allocator of its allocation.
    pub(crate) fn from_parts(lock: MappedRwLock<T, U>, allocator: A) -> (owner: Self)
        ensures
            owner.spec_lock() == lock,
            owner.spec_allocator() == allocator,
    {
        UniqueArcMappedRwLock { lock, allocator }
    }

    /// The handle and the allocator of an owner, which stays counted in the
    /// header.
    pub(crate) fn into_parts(self) -> (parts: (MappedRwLock<T, U>, A))
        ensures
            parts.0 == self.spec_lock(),
            parts.1 == self.spec_allocator(),
    {
        (self.lock, self.allocator)
    }

    /// The allocator that made the allocation.
    pub closed spec fn spec_allocator(&self) -> A {
        self.allocator
    }

    /// A unique owner of a fresh allocation for a payload of `len` elements,
    /// with access to all of them. The header counts one unique handle.
    pub fn new(len: usize, allocator: A) -> (owner: Self)
        ensures
            owner.spec_lock().len() == len,
            owner.spec_lock().subfield() == Region::spec_whole(len),
            owner.spec_allocator() == allocator,
            owner.spec_lock().allocation().counter.born() == unit(Category::Unique),
            owner.spec_lock().allocation().lock.lock.spec_word().born() == EMPTY,
            !owner.spec_lock().allocation().lock.lock.born_poisoned(),
    {
        let inner = Arc::new(InnerArc::new(Category::Unique, len));
        UniqueArcMappedRwLock { lock: MappedRwLock::assemble(inner, Region::whole(len)), allocator }
    }

    /// A unique owner of an allocation that was put together elsewhere, with
    /// access to all of its payload. The header of `inner` must count this
    /// owner already.
    pub fn adopt(inner: InnerArc, allocator: A) -> (owner: Self)
        ensures
            owner.spec_lock().len() == inner.lock.len,
            owner.spec_lock().subfield() == Region::spec_whole(inner.lock.len),
            owner.spec_lock().allocation() == inner,
            owner.spec_allocator() == allocator,
    {
        let len: usize = inner.lock.len;
        UniqueArcMappedRwLock { lock: MappedRwLock::assemble(Arc::new(inner), Region::whole(len)), allocator }
    }

    /// The handle inside the wrapper.
    pub fn as_lock(&self) -> (lock: &MappedRwLock<T, U>)
        ensures
            *lock == self.spec_lock(),
    {
        &self.lock
    }

    /// The handle inside the wrapper, for locking its subfield for writing.
    pub fn as_lock_mut(&mut self) -> (lock: &mut MappedRwLock<T, U>)
        ensures
            *lock == old(self).spec_lock(),
            final(self).spec_lock() == *final(lock),
            final(self).spec_allocator() == old(self).spec_allocator(),
    {
        &mut self.lock
    }

    /// Gives the ownership up. The header counts one unique handle less; the
    /// release that empties it is told to free, and gets the allocator.
    pub fn release(self) -> (teardown: Teardown<A>)
        ensures
            teardown == teardown_of(
                Category::Unique,
                teardown.previous(),
                self.spec_allocator(),
            ),
    {
        let done: Decrement = self.lock.header().decrement_unique_counter();
        settle_release(Category::Unique, done.previous, self.allocator)
    }
}

/// A shared owner of an allocation whose subfield is the whole payload.
pub struct ArcRwLock<T: ?Sized, A = Global> {
    mapped: ArcMappedRwLock<T, T, A>,
}

/// A unique owner of an allocation whose subfield is the whole payload.
pub struct UniqueArcRwLock<T: ?Sized, A = Global> {
    mapped: UniqueArcMappedRwLock<T, T, A>,
}

impl<T: ?Sized, A> ArcRwLock<T, A> {
    /// The subfield of the owner is the whole payload.
    #[verifier::type_invariant]
    pub closed spec fn inv(self) -> bool {
        self.mapped.spec_lock().subfield() == Region::spec_whole(self.mapped.spec_lock().len())
    }

    /// The mapped owner inside.
    pub closed spec fn spec_mapped(&self) -> ArcMappedRwLock<T, T, A> {
        self.mapped
    }

    /// A shared owner of a fresh allocation for a payload of `len` elements.
    pub fn new(len: usize, allocator: A) -> (owner: Self)
        ensures
            owner.spec_mapped().spec_lock().len() == len,
            owner.spec_mapped().spec_lock().subfield() == Region::spec_whole(len),
            owner.spec_mapped().spec_allocator() == allocator,
    {
        ArcRwLock { mapped: ArcMappedRwLock::new(len, allocator) }
    }

    /// The mapped owner inside. Its subfield is the whole payload.
    pub fn as_mapped(&self) -> (mapped: &ArcMappedRwLock<T, T, A>)
        ensures
            *mapped == self.spec_mapped(),
            mapped.spec_lock().subfield() == Region::spec_whole(mapped.spec_lock().len()),
    {
        proof {
            use_type_invariant(self);
        }
        &self.mapped
    }

    /// The owner as a mapped owner of the whole payload.
    pub fn into_mapped(self) -> (mapped: ArcMappedRwLock<T, T, A>)
        ensures
            mapped == self.spec_mapped(),
            mapped.spec_lock().subfield() == Region::spec_whole(mapped.spec_lock().len()),
    {
        proof {
            use_type_invariant(&self);
        }
        self.mapped
    }
}

impl<T: ?Sized, A> UniqueArcRwLock<T, A> {
    /// The subfield of the owner is the whole payload.
    #[verifier::type_invariant]
    pub closed spec fn inv(self) -> bool {
        self.mapped.spec_lock().subfield() == Region::spec_whole(self.mapped.spec_lock().len())
    }

    /// The mapped owner inside.
    pub closed spec fn spec_mapped(&self) -> UniqueArcMappedRwLock<T, T, A> {
        self.mapped
    }

    /// A unique owner of a fresh allocation for a payload of `len` elements.
    pub fn new(len: usize, allocator: A) -> (owner: Self)
        ensures
            owner.spec_mapped().spec_lock().len() == len,
            owner.spec_mapped().spec_lock().subfield() == Region::spec_whole(len),
            owner.spec_mapped().spec_allocator() == allocator,
    {
        UniqueArcRwLock { mapped: UniqueArcMappedRwLock::new(len, allocator) }
    }

    /// The mapped owner inside. Its subfield is the whole payload.
    pub fn as_mapped(&self) -> (mapped: &UniqueArcMappedRwLock<T, T, A>)
        ensures
            *mapped == self.spec_mapped(),
            mapped.spec_lock().subfield() == Region::spec_whole(mapped.spec_lock().len()),
    {
        proof {
            use_type_invariant(self);
        }
        &self.mapped
    }

    /// The owner as a mapped owner of the whole payload.
    pub fn into_mapped(self) -> (mapped: UniqueArcMappedRwLock<T, T, A>)
        ensures
            mapped == self.spec_mapped(),
            mapped.spec_lock().subfield() == Region::spec_whole(mapped.spec_lock().len()),
    {
        proof {
            use_type_invariant(&self);
        }
        self.mapped
    }
}

} // verus!
