//! Mapped handles and their guards.
//!
//! A handle names an allocation and the subfield of its payload that the
//! handle may mutate. Handles never check that their subfields are disjoint:
//! whoever makes them (see [`crate::slice`]) guarantees it. The lock only
//! arbitrates between the two modes, subfield writing and whole-object
//! reading.

use std::marker::PhantomData;
use std::sync::Arc;
use vstd::prelude::*;

use crate::arc::InnerArc;
use crate::header::Header;
use crate::inner::reader_released;
use crate::inner::writer_released;
use crate::inner::Acquire;
use crate::inner::Lock;
use crate::inner::PoisonLock;
use crate::inner::Released;
use crate::region::Region;
use crate::word::plan_read_whole;
use crate::word::plan_write;
use crate::word::Step;

verus! {

/// How a bounded attempt at the lock ended.
#[derive(Debug)]
pub enum Attempt<R> {
    /// The lock answered; this is what it said.
    Done(R),
    /// The holder count of the lock word `seen` was full. This is fatal: the
    /// caller must not go on using the lock.
    Overflow { seen: u32 },
    /// The passes ran out. The caller may try again.
    Contended,
}

/// The answer of a non-blocking attempt that found the opposing mode active
/// in the lock word `seen`.
#[derive(Clone, Copy, Debug, PartialEq, Eq, Structural)]
pub struct WouldBlock {
    pub seen: u32,
}

/// A guard handed out although a writer failed inside its critical section.
/// The guard is as usable as any other; the mark is advice.
#[derive(Debug)]
pub struct Poisoned<G> {
    pub guard: G,
}

impl<G> Poisoned<G> {
    /// The guard, without the mark.
    pub fn into_inner(self) -> (guard: G)
        ensures
            guard == self.guard,
    {
        self.guard
    }

    /// A look at the guard.
    pub fn get_ref(&self) -> (guard: &G)
        ensures
            *guard == self.guard,
    {
        &self.guard
    }
}

/// Why a non-blocking whole-object read gave no clean guard.
#[derive(Debug)]
pub enum TryReadError<G> {
    /// The lock was taken, but a writer had failed before.
    Poisoned(Poisoned<G>),
    /// Subfield writers were inside when the lock word `seen` was loaded.
    WouldBlock { seen: u32 },
}

/// What a blocking reader gets for a freshly taken guard when the poison flag
/// read after taking it was `poisoned`: the guard either way, marked where the
/// lock is poisoned.
pub open spec fn verdict_of<G>(guard: G, poisoned: bool) -> Result<G, Poisoned<G>> {
    if poisoned {
        Err(Poisoned { guard })
    } else {
        Ok(guard)
    }
}

/// What a non-blocking reader gets for a freshly taken guard when the poison
/// flag read after taking it was `poisoned`.
pub open spec fn try_verdict_of<G>(guard: G, poisoned: bool) -> Result<G, TryReadError<G>> {
    if poisoned {
        Err(TryReadError::Poisoned(Poisoned { guard }))
    } else {
        Ok(guard)
    }
}

/// Wraps a freshly taken guard according to the poison flag that was read
/// after taking it: a poisoned lock still hands the guard out, marked.
pub fn poison_verdict<G>(guard: G, poisoned: bool) -> (verdict: Result<G, Poisoned<G>>)
    ensures
        verdict == verdict_of(guard, poisoned),
{
    if poisoned {
        Err(Poisoned { guard })
    } else {
        Ok(guard)
    }
}

/// Wraps a freshly taken guard for a non-blocking reader according to the
/// poison flag that was read after taking it.
pub fn try_poison_verdict<G>(guard: G, poisoned: bool) -> (verdict: Result<G, TryReadError<G>>)
    ensures
        verdict == try_verdict_of(guard, poisoned),
{
    if poisoned {
        Err(TryReadError::Poisoned(Poisoned { guard }))
    } else {
        Ok(guard)
    }
}

/// Poison is advice. A reader of a poisoned lock gets the very guard that a
/// reader of a clean lock would get, inside the mark, and can take it out; a
/// reader of a lock whose poison was cleared gets it without the mark.
pub proof fn lemma_poison_is_advisory<G>(guard: G)
    ensures
        verdict_of(guard, true) matches Err(marked) && marked.guard == guard,
        try_verdict_of(guard, true) matches Err(TryReadError::Poisoned(marked)) && marked.guard
            == guard,
        verdict_of(guard, false) == Ok::<G, Poisoned<G>>(guard),
        try_verdict_of(guard, false) == Ok::<G, TryReadError<G>>(guard),
{
}

/// A handle on one subfield of the payload of an allocation.
pub struct MappedRwLock<T: ?Sized, U: ?Sized> {
    pub(crate) inner: Arc<InnerArc>,
    pub(crate) subfield: Region,
    pub(crate) marker: PhantomData<(Box<T>, Box<U>)>,
}

/// The slot of one subfield writer. Whoever holds it may mutate the elements
/// of `region()` until the slot is released.
pub struct MappedRwLockWriteGuard<'a> {
    lock: &'a PoisonLock,
    data: Region,
    from: u32,
    to: u32,
}

/// The slot of one whole-object reader. Whoever holds it may read every
/// element of the payload until the slot is released.
pub struct MappedRwLockReadWholeGuard<'a> {
    lock: &'a Lock,
    data: Region,
    from: u32,
    to: u32,
}

/// How a subfield writer left the lock.
#[derive(Clone, Copy, Debug, PartialEq, Eq, Structural)]
pub struct WriterLeft {
    /// What giving the writer slot back did to the lock word.
    pub slot: Released,
    /// Whether the writer poisoned the lock on leaving.
    pub poisoned: bool,
}

/// What a writer does once the lock word has answered `slot` to its release:
/// it has not left while the answer is `Contended`; else it has left, and it
/// poisons the lock exactly when its critical section `failed`.
pub open spec fn spec_leaves(slot: Released, failed: bool) -> Option<WriterLeft> {
    if slot is Contended {
        None
    } else {
        Some(WriterLeft { slot, poisoned: failed })
    }
}

/// Decides what a writer does once the lock word has answered `slot` to its
/// release: whether it has left, and whether it poisons the lock.
#[verifier::when_used_as_spec(spec_leaves)]
pub fn leaves(slot: Released, failed: bool) -> (left: Option<WriterLeft>)
    ensures
        left == spec_leaves(slot, failed),
{
    match slot {
        Released::Contended => None,
        _ => Some(WriterLeft { slot, poisoned: failed }),
    }
}

impl<'a> MappedRwLockWriteGuard<'a> {
    /// The elements that the guard gives write access to.
    pub closed spec fn spec_region(&self) -> Region {
        self.data
    }

    /// The lock word that the writer replaced on entering, and the word it
    /// installed.
    pub closed spec fn spec_entry(&self) -> (u32, u32) {
        (self.from, self.to)
    }

    /// The elements that the guard gives write access to.
    #[verifier::when_used_as_spec(spec_region)]
    pub fn region(&self) -> (region: Region)
        ensures
            region == self.spec_region(),
    {
        self.data
    }

    /// The lock word that the writer replaced on entering, and the word it
    /// installed.
    #[verifier::when_used_as_spec(spec_entry)]
    pub fn entry(&self) -> (words: (u32, u32))
        ensures
            words == self.spec_entry(),
    {
        (self.from, self.to)
    }

    /// The lock that the guard holds a writer slot of.
    pub closed spec fn spec_lock(&self) -> PoisonLock {
        *self.lock
    }

    /// Gives the writer slot back, and then poisons the lock if the critical
    /// section `failed`. Makes at most `rounds` passes at the lock word; when
    /// they run out the guard comes back unchanged, to be released again, and
    /// the poison flag is left alone.
    pub fn release(self, failed: bool, rounds: usize) -> (done: Result<WriterLeft, Self>)
        ensures
            match done {
                Ok(left) => writer_released(left.slot) && !(left.slot is Contended)
                    && left.poisoned == failed,
                Err(guard) => guard == self,
            },
            rounds == 0 ==> done is Err,
    {
        let slot: Released = self.lock.word().drop_writer(rounds);
        match leaves(slot, failed) {
            None => Err(self),
            Some(left) => {
                if left.poisoned {
                    self.lock.poison();
                }
                Ok(left)
            },
        }
    }
}

impl<'a> MappedRwLockReadWholeGuard<'a> {
    /// The lock word that the guard holds a reader slot of.
    pub closed spec fn spec_lock(&self) -> Lock {
        *self.lock
    }

    /// The elements that the guard gives read access to: the whole payload.
    pub closed spec fn spec_region(&self) -> Region {
        self.data
    }

    /// The lock word that the reader replaced on entering, and the word it
    /// installed.
    pub closed spec fn spec_entry(&self) -> (u32, u32) {
        (self.from, self.to)
    }

    /// The elements that the guard gives read access to: the whole payload.
    #[verifier::when_used_as_spec(spec_region)]
    pub fn region(&self) -> (region: Region)
        ensures
            region == self.spec_region(),
    {
        self.data
    }

    /// The lock word that the reader replaced on entering, and the word it
    /// installed.
    #[verifier::when_used_as_spec(spec_entry)]
    pub fn entry(&self) -> (words: (u32, u32))
        ensures
            words == self.spec_entry(),
    {
        (self.from, self.to)
    }

    /// Gives the reader slot back.
    pub fn release(self) -> (released: Released)
        ensures
            reader_released(released),
    {
        self.lock.drop_whole_reader()
    }
}

impl<T: ?Sized, U: ?Sized> MappedRwLock<T, U> {
    /// The handle's subfield lies inside the payload.
    #[verifier::type_invariant]
    pub closed spec fn inv(self) -> bool {
        self.subfield.start + self.subfield.len <= self.inner.lock.len
    }

    /// The allocation that the handle points into.
    pub closed spec fn allocation(&self) -> InnerArc {
        *self.inner
    }

    /// A handle on `subfield` of the payload of `inner`.
    pub(crate) fn assemble(inner: Arc<InnerArc>, subfield: Region) -> (handle: Self)
        requires
            subfield.start + subfield.len <= inner.lock.len,
        ensures
            handle.subfield() == subfield,
            handle.len() == inner.lock.len,
            handle.allocation() == *inner,
    {
        MappedRwLock { inner, subfield, marker: PhantomData }
    }

    /// A handle on another subfield of the same payload.
    pub(crate) fn sibling<V: ?Sized, W: ?Sized>(&self, subfield: Region) -> (handle: MappedRwLock<
        V,
        W,
    >)
        requires
            subfield.start + subfield.len <= self.len(),
        ensures
            handle.subfield() == subfield,
            handle.len() == self.len(),
            handle.allocation() == self.allocation(),
    {
        MappedRwLock { inner: Arc::clone(&self.inner), subfield, marker: PhantomData }
    }

    /// Moves the handle to another subfield of the same payload.
    pub(crate) fn remap(&mut self, subfield: Region)
        requires
            subfield.start + subfield.len <= old(self).len(),
        ensures
            final(self).subfield() == subfield,
            final(self).len() == old(self).len(),
            final(self).allocation() == old(self).allocation(),
    {
        self.subfield = subfield;
    }

    /// The reference-count header of the allocation.
    pub(crate) fn header(&self) -> (header: &Header)
        ensures
            *header == self.allocation().counter,
    {
        &self.inner.counter
    }

    /// The elements that the handle may mutate.
    pub closed spec fn spec_subfield(&self) -> Region {
        self.subfield
    }

    /// The number of elements in the payload of the allocation.
    pub closed spec fn spec_len(&self) -> usize {
        self.inner.lock.len
    }

    /// The elements that the handle may mutate.
    #[verifier::when_used_as_spec(spec_subfield)]
    pub fn subfield(&self) -> (region: Region)
        ensures
            region == self.spec_subfield(),
            region.start + region.len <= self.spec_len(),
    {
        proof {
            use_type_invariant(self);
        }
        self.subfield
    }

    /// The whole payload of the allocation.
    pub closed spec fn spec_whole(&self) -> Region {
        Region { start: 0, len: self.inner.lock.len }
    }

    /// The number of elements in the payload of the allocation.
    #[verifier::when_used_as_spec(spec_len)]
    pub fn len(&self) -> (len: usize)
        ensures
            len == self.spec_len(),
    {
        self.inner.lock.len
    }

    /// The whole payload of the allocation.
    #[verifier::when_used_as_spec(spec_whole)]
    pub fn whole(&self) -> (region: Region)
        ensures
            region == self.spec_whole(),
            region == (Region { start: 0, len: self.spec_len() }),
    {
        Region::whole(self.inner.lock.len)
    }

    /// The subfield, for reading without synchronisation. No other handle
    /// writes to it, and this handle cannot be writing while it is borrowed
    /// here.
    pub fn read(&self) -> (region: Region)
        ensures
            region == self.spec_subfield(),
    {
        self.subfield
    }

    /// Whether a writer has failed inside its critical section since the
    /// poison was last cleared.
    pub fn is_poisoned(&self) -> (poisoned: bool) {
        self.inner.lock.lock.is_poisoned()
    }

    /// Clears the poison mark, so that later whole-object readers get their
    /// guards unmarked.
    pub fn clear_poison(&self) {
        self.inner.lock.lock.remove_poison();
    }

    /// Locks the subfield for writing, parking while whole-object readers are
    /// inside. Poison is neither consulted nor a hindrance. Makes at most
    /// `rounds` passes at the lock word.
    pub fn write(&mut self, rounds: usize) -> (attempt: Attempt<MappedRwLockWriteGuard<'_>>)
        ensures
            *final(self) == *old(self),
            attempt matches Attempt::Done(guard) ==> guard.region() == old(self).subfield()
                && guard.spec_lock() == old(self).allocation().lock.lock
                && plan_write(guard.entry().0) == Step::Swap(guard.entry().1),
            attempt matches Attempt::Overflow { seen } ==> plan_write(seen) == Step::Overflow,
            rounds == 0 ==> attempt is Contended,
    {
        match self.inner.lock.lock.word().write(rounds) {
            Acquire::Locked { from, to } => Attempt::Done(
                MappedRwLockWriteGuard { lock: &self.inner.lock.lock, data: self.subfield, from, to },
            ),
            Acquire::Overflow { seen } => Attempt::Overflow { seen },
            _ => Attempt::Contended,
        }
    }

    /// Attempts to lock the subfield for writing without parking: answers
    /// `WouldBlock` when it finds whole-object readers inside.
    pub fn try_write(&mut self, rounds: usize) -> (attempt: Attempt<
        Result<MappedRwLockWriteGuard<'_>, WouldBlock>,
    >)
        ensures
            *final(self) == *old(self),
            attempt matches Attempt::Done(Ok(guard)) ==> guard.region() == old(self).subfield()
                && guard.spec_lock() == old(self).allocation().lock.lock
                && plan_write(guard.entry().0) == Step::Swap(guard.entry().1),
            attempt matches Attempt::Done(Err(blocked)) ==> plan_write(blocked.seen) == Step::Park,
            attempt matches Attempt::Overflow { seen } ==> plan_write(seen) == Step::Overflow,
            rounds == 0 ==> attempt is Contended,
    {
        match self.inner.lock.lock.word().try_write(rounds) {
            Acquire::Locked { from, to } => Attempt::Done(
                Ok(
                    MappedRwLockWriteGuard {
                        lock: &self.inner.lock.lock,
                        data: self.subfield,
                        from,
                        to,
                    },
                ),
            ),
            Acquire::WouldBlock { seen } => Attempt::Done(Err(WouldBlock { seen })),
            Acquire::Overflow { seen } => Attempt::Overflow { seen },
            Acquire::Contended => Attempt::Contended,
        }
    }

    /// Locks the whole payload for reading, parking while subfield writers
    /// are inside. The poison flag is read after the lock is taken: a
    /// poisoned lock still hands the guard out, marked. Makes at most
    /// `rounds` passes at the lock word.
    pub fn read_whole(&self, rounds: usize) -> (attempt: Attempt<
        Result<MappedRwLockReadWholeGuard<'_>, Poisoned<MappedRwLockReadWholeGuard<'_>>>,
    >)
        ensures
            attempt matches Attempt::Done(Ok(guard)) ==> guard.region() == self.whole()
                && guard.spec_lock() == self.allocation().lock.lock.spec_word()
                && plan_read_whole(guard.entry().0) == Step::Swap(guard.entry().1),
            attempt matches Attempt::Done(Err(marked)) ==> marked.guard.region() == self.whole()
                && marked.guard.spec_lock() == self.allocation().lock.lock.spec_word()
                && plan_read_whole(marked.guard.entry().0) == Step::Swap(marked.guard.entry().1),
            attempt matches Attempt::Overflow { seen } ==> plan_read_whole(seen) == Step::Overflow,
            rounds == 0 ==> attempt is Contended,
    {
        match self.inner.lock.lock.word().read_whole(rounds) {
            Acquire::Locked { from, to } => {
                let guard = MappedRwLockReadWholeGuard {
                    lock: self.inner.lock.lock.word(),
                    data: Region::whole(self.inner.lock.len),
                    from,
                    to,
                };
                Attempt::Done(poison_verdict(guard, self.inner.lock.lock.is_poisoned()))
            },
            Acquire::Overflow { seen } => Attempt::Overflow { seen },
            _ => Attempt::Contended,
        }
    }

    /// Attempts to lock the whole payload for reading without parking:
    /// answers `WouldBlock` when it finds subfield writers inside, and a
    /// marked guard when the lock is poisoned.
    pub fn try_read_whole(&self, rounds: usize) -> (attempt: Attempt<
        Result<MappedRwLockReadWholeGuard<'_>, TryReadError<MappedRwLockReadWholeGuard<'_>>>,
    >)
        ensures
            attempt matches Attempt::Done(Ok(guard)) ==> guard.region() == self.whole()
                && guard.spec_lock() == self.allocation().lock.lock.spec_word()
                && plan_read_whole(guard.entry().0) == Step::Swap(guard.entry().1),
            attempt matches Attempt::Done(Err(TryReadError::Poisoned(marked)))
                ==> marked.guard.region() == self.whole() && marked.guard.spec_lock()
                == self.allocation().lock.lock.spec_word() && plan_read_whole(
                marked.guard.entry().0,
            ) == Step::Swap(marked.guard.entry().1),
            attempt matches Attempt::Done(Err(TryReadError::WouldBlock { seen }))
                ==> plan_read_whole(seen) == Step::Park,
            attempt matches Attempt::Overflow { seen } ==> plan_read_whole(seen) == Step::Overflow,
            rounds == 0 ==> attempt is Contended,
    {
        match self.inner.lock.lock.word().try_read_whole(rounds) {
            Acquire::Locked { from, to } => {
                let guard = MappedRwLockReadWholeGuard {
                    lock: self.inner.lock.lock.word(),
                    data: Region::whole(self.inner.lock.len),
                    from,
                    to,
                };
                Attempt::Done(try_poison_verdict(guard, self.inner.lock.lock.is_poisoned()))
            },
            Acquire::WouldBlock { seen } => Attempt::Done(
                Err(TryReadError::WouldBlock { seen }),
            ),
            Acquire::Overflow { seen } => Attempt::Overflow { seen },
            Acquire::Contended => Attempt::Contended,
        }
    }
}

} // verus!
