//! The atomic cell behind the lock word, and the poison flag beside it.
//!
//! Every loop here makes a bounded number of passes: a caller that wants to
//! block calls again while the answer is `Contended`. What a pass does with
//! the value it loaded is decided by the planning functions of
//! [`crate::word`]; the contracts below say which plan the installed
//! transition, or the refusal, came from.

use std::sync::atomic::AtomicBool;
use std::sync::atomic::AtomicU32;
use std::sync::atomic::Ordering;
use vstd::prelude::*;

use crate::word::drop_whole_reader_step;
use crate::word::drop_writer_step;
use crate::word::follows;
use crate::word::plan_drop_whole_reader;
use crate::word::plan_drop_writer;
use crate::word::plan_read_whole;
use crate::word::plan_write;
use crate::word::read_whole_step;
use crate::word::write_step;
use crate::word::Release;
use crate::word::Step;
use crate::word::COUNTER_ONE;
use crate::word::EMPTY;

verus! {

/// `atomic_wait::wait` parks the calling thread while the cell holds `value`.
/// It may return at any time, woken or not, and returns nothing, so nothing is
/// claimed of it.
pub assume_specification[ atomic_wait::wait ](atomic: &AtomicU32, value: u32);

/// `std::hint::spin_loop` tells the processor that the caller is busy-waiting.
/// It returns nothing, so nothing is claimed of it.
pub assume_specification[ std::hint::spin_loop ]();

/// `std::sync::atomic::fence` orders the memory accesses around it. It panics
/// when asked for `Relaxed`, which the precondition rules out, and returns
/// nothing.
pub assume_specification[ std::sync::atomic::fence ](order: Ordering)
    requires
        !(order is Relaxed),
;

/// `atomic_wait::wake_all` wakes every thread parked on the cell. It returns
/// nothing, so nothing is claimed of it.
#[verifier::external_body]
fn wake_all(atomic: &AtomicU32) {
    atomic_wait::wake_all(atomic)
}

/// How an attempt to enter the lock ended.
#[derive(Clone, Copy, Debug, PartialEq, Eq, Structural)]
pub enum Acquire {
    /// The caller is inside: it replaced the word `from` by `to`.
    Locked { from: u32, to: u32 },
    /// The opposing mode was active when the word `seen` was loaded.
    WouldBlock { seen: u32 },
    /// The holder count of the word `seen` was at its maximum.
    Overflow { seen: u32 },
    /// The passes ran out before any of the above happened.
    Contended,
}

/// How an attempt to leave the lock ended.
#[derive(Clone, Copy, Debug, PartialEq, Eq, Structural)]
pub enum Released {
    /// The caller is outside: it replaced the word `from` by `to`, and `woke`
    /// says whether it woke the waiters.
    Done { from: u32, to: u32, woke: bool },
    /// The word `seen` held nobody of the releasing kind.
    NotHeld { seen: u32 },
    /// The passes ran out before any of the above happened.
    Contended,
}

/// The plan that an acquisition of the given kind follows.
pub open spec fn plan_acquire(writer: bool, loaded: u32) -> Step {
    if writer {
        plan_write(loaded)
    } else {
        plan_read_whole(loaded)
    }
}

/// What an answer of an acquisition tells about the words it names: an
/// installed transition is the one the plan asked for, a refusal is one the
/// plan gave for the word that was seen, and only a non-blocking attempt
/// answers `WouldBlock`.
pub open spec fn acquired(writer: bool, blocking: bool, got: Acquire) -> bool {
    match got {
        Acquire::Locked { from, to } => plan_acquire(writer, from) == Step::Swap(to),
        Acquire::WouldBlock { seen } => !blocking && plan_acquire(writer, seen) == Step::Park,
        Acquire::Overflow { seen } => plan_acquire(writer, seen) == Step::Overflow,
        Acquire::Contended => true,
    }
}

/// What an answer of a writer's release tells about the words it names.
pub open spec fn writer_released(got: Released) -> bool {
    match got {
        Released::Done { from, to, woke } => plan_drop_writer(from) == (Release::Swap {
            new: to,
            wake: woke,
        }),
        Released::NotHeld { seen } => plan_drop_writer(seen) == Release::NotHeld,
        Released::Contended => true,
    }
}

/// What an answer of a reader's release tells about the words it names. A
/// reader subtracts unconditionally, so `to` is `from` less one holder even
/// where the word held no reader.
pub open spec fn reader_released(got: Released) -> bool {
    match got {
        Released::Done { from, to, woke } => plan_drop_whole_reader(from) == (Release::Swap {
            new: to,
            wake: woke,
        }),
        Released::NotHeld { seen } => plan_drop_whole_reader(seen) == Release::NotHeld,
        Released::Contended => false,
    }
}

/// Every transition that an answer reports as installed is a step that a
/// history of the lock word admits, so that what is proved of histories holds
/// of whatever the operations below install.
pub proof fn lemma_installed_steps_follow(writer: bool, blocking: bool, got: Acquire, left: Released)
    ensures
        acquired(writer, blocking, got) ==> (got matches Acquire::Locked { from, to } ==> follows(
            from,
            to,
        )),
        writer_released(left) ==> (left matches Released::Done { from, to, .. } ==> follows(
            from,
            to,
        )),
        reader_released(left) ==> (left matches Released::Done { from, to, .. } ==> follows(
            from,
            to,
        )),
{
}

/// What one pass of an acquire loop leads to.
#[derive(Clone, Copy, Debug, PartialEq, Eq, Structural)]
pub enum Pass {
    /// The loop ends with this answer.
    Finish(Acquire),
    /// The loop goes on with this word as the loaded one.
    Retry(u32),
    /// The loop parks on the loaded word, loads again and goes on.
    Sleep,
}

/// What follows when the plan for `loaded` was `step` and, where the plan was
/// a swap, the compare-and-swap answered `swapped`: success ends the loop,
/// failure hands back the word to go on with, a full count ends it, and an
/// opposing mode either ends it or puts the caller to sleep.
pub open spec fn pass_of(loaded: u32, step: Step, swapped: Result<u32, u32>, blocking: bool)
    -> Pass {
    match step {
        Step::Swap(new) => match swapped {
            Ok(_) => Pass::Finish(Acquire::Locked { from: loaded, to: new }),
            Err(current) => Pass::Retry(current),
        },
        Step::Overflow => Pass::Finish(Acquire::Overflow { seen: loaded }),
        Step::Park => if blocking {
            Pass::Sleep
        } else {
            Pass::Finish(Acquire::WouldBlock { seen: loaded })
        },
    }
}

/// Settles one pass of an acquire loop from the plan and from what the
/// compare-and-swap answered. `swapped` is read only where the plan was a
/// swap.
pub fn settle(loaded: u32, step: Step, swapped: Result<u32, u32>, blocking: bool) -> (pass: Pass)
    ensures
        pass == pass_of(loaded, step, swapped, blocking),
{
    match step {
        Step::Swap(new) => match swapped {
            Ok(_) => Pass::Finish(Acquire::Locked { from: loaded, to: new }),
            Err(current) => Pass::Retry(current),
        },
        Step::Overflow => Pass::Finish(Acquire::Overflow { seen: loaded }),
        Step::Park => if blocking {
            Pass::Sleep
        } else {
            Pass::Finish(Acquire::WouldBlock { seen: loaded })
        },
    }
}

/// The lock word in its atomic cell. What the cell holds changes under the
/// hands of other threads and has no value in specifications; what it held
/// when the lock was made has.
pub struct Lock {
    cell: AtomicU32,
    born: Ghost<u32>,
}

impl Lock {
    /// The word that the lock held when it was made: the first word of its
    /// history.
    pub closed spec fn born(&self) -> u32 {
        self.born@
    }

    /// Constructs an unlocked `Lock`.
    pub fn new() -> (lock: Self)
        ensures
            lock.born() == EMPTY,
    {
        Lock { cell: AtomicU32::new(EMPTY), born: Ghost(EMPTY) }
    }

    /// Constructs a `Lock` that holds `word`.
    pub fn with_word(word: u32) -> (lock: Self)
        ensures
            lock.born() == word,
    {
        Lock { cell: AtomicU32::new(word), born: Ghost(word) }
    }

    /// The word as it is at some moment during the call.
    pub fn load(&self) -> (word: u32) {
        self.cell.load(Ordering::Relaxed)
    }

    /// The acquire loop shared by the four entry points: load, plan, and
    /// either install the planned word, give up, or wait for a wake-up.
    fn acquire(&self, writer: bool, blocking: bool, rounds: usize) -> (got: Acquire)
        ensures
            acquired(writer, blocking, got),
            rounds == 0 ==> got == Acquire::Contended,
    {
        let mut loaded: u32 = self.cell.load(Ordering::Relaxed);
        let mut left: usize = rounds;
        while left > 0
            invariant
                left <= rounds,
            decreases left,
        {
            left = left - 1;
            let step: Step = if writer {
                write_step(loaded)
            } else {
                read_whole_step(loaded)
            };
            let swapped: Result<u32, u32> = match step {
                Step::Swap(new) => self.cell.compare_exchange_weak(
                    loaded,
                    new,
                    Ordering::Acquire,
                    Ordering::Relaxed,
                ),
                _ => Err(loaded),
            };
            match settle(loaded, step, swapped, blocking) {
                Pass::Finish(got) => {
                    return got;
                },
                Pass::Retry(current) => {
                    std::hint::spin_loop();
                    loaded = current;
                },
                Pass::Sleep => {
                    atomic_wait::wait(&self.cell, loaded);
                    loaded = self.cell.load(Ordering::Relaxed);
                },
            }
        }
        Acquire::Contended
    }

    /// Locks with subfield write access, parking while whole-object readers
    /// are inside. Makes at most `rounds` passes; `Contended` asks the caller
    /// to call again.
    pub fn write(&self, rounds: usize) -> (got: Acquire)
        ensures
            acquired(true, true, got),
            rounds == 0 ==> got == Acquire::Contended,
    {
        self.acquire(true, true, rounds)
    }

    /// Attempts to lock with subfield write access without parking: answers
    /// `WouldBlock` as soon as it sees whole-object readers inside.
    pub fn try_write(&self, rounds: usize) -> (got: Acquire)
        ensures
            acquired(true, false, got),
            rounds == 0 ==> got == Acquire::Contended,
    {
        self.acquire(true, false, rounds)
    }

    /// Locks with whole-object read access, parking while subfield writers
    /// are inside. Makes at most `rounds` passes; `Contended` asks the caller
    /// to call again.
    pub fn read_whole(&self, rounds: usize) -> (got: Acquire)
        ensures
            acquired(false, true, got),
            rounds == 0 ==> got == Acquire::Contended,
    {
        self.acquire(false, true, rounds)
    }

    /// Attempts to lock with whole-object read access without parking:
    /// answers `WouldBlock` as soon as it sees subfield writers inside.
    pub fn try_read_whole(&self, rounds: usize) -> (got: Acquire)
        ensures
            acquired(false, false, got),
            rounds == 0 ==> got == Acquire::Contended,
    {
        self.acquire(false, false, rounds)
    }

    /// Gives one writer slot back. The writer that empties the lock wakes
    /// every waiter. Makes at most `rounds` passes; `Contended` asks the
    /// caller to call again.
    pub fn drop_writer(&self, rounds: usize) -> (got: Released)
        ensures
            writer_released(got),
            rounds == 0 ==> got == Released::Contended,
    {
        let mut loaded: u32 = self.cell.load(Ordering::Relaxed);
        let mut left: usize = rounds;
        while left > 0
            invariant
                left <= rounds,
            decreases left,
        {
            left = left - 1;
            match drop_writer_step(loaded) {
                Release::NotHeld => {
                    return Released::NotHeld { seen: loaded };
                },
                Release::Swap { new, wake } => {
                    let swapped: Result<u32, u32> = if wake {
                        self.cell.compare_exchange_weak(
                            loaded,
                            new,
                            Ordering::Release,
                            Ordering::Relaxed,
                        )
                    } else {
                        self.cell.compare_exchange_weak(
                            loaded,
                            new,
                            Ordering::Relaxed,
                            Ordering::Relaxed,
                        )
                    };
                    match swapped {
                        Ok(_) => {
                            if wake {
                                wake_all(&self.cell);
                            }
                            return Released::Done { from: loaded, to: new, woke: wake };
                        },
                        Err(current) => {
                            std::hint::spin_loop();
                            loaded = current;
                        },
                    }
                },
            }
        }
        Released::Contended
    }

    /// Gives one reader slot back by a single atomic subtraction. The reader
    /// that empties the lock publishes with an acquire fence and wakes every
    /// waiter. The caller must hold a reader slot: the subtraction is made
    /// whatever the word holds, and `NotHeld` reports that it held no reader.
    pub fn drop_whole_reader(&self) -> (got: Released)
        ensures
            reader_released(got),
    {
        let previous: u32 = self.cell.fetch_sub(COUNTER_ONE, Ordering::Release);
        match drop_whole_reader_step(previous) {
            Release::Swap { new, wake } => {
                if wake {
                    std::sync::atomic::fence(Ordering::Acquire);
                    wake_all(&self.cell);
                }
                Released::Done { from: previous, to: new, woke: wake }
            },
            Release::NotHeld => Released::NotHeld { seen: previous },
        }
    }
}

/// A lock word together with the flag that remembers a failed writer.
pub struct PoisonLock {
    lock: Lock,
    poison: AtomicBool,
    born_poisoned: Ghost<bool>,
}

impl PoisonLock {
    /// The lock word.
    pub closed spec fn spec_word(&self) -> Lock {
        self.lock
    }

    /// Whether the lock was poisoned when it was made.
    pub closed spec fn born_poisoned(&self) -> bool {
        self.born_poisoned@
    }

    /// Creates a new unlocked lock without poison.
    pub fn new() -> (lock: Self)
        ensures
            lock.spec_word().born() == EMPTY,
            !lock.born_poisoned(),
    {
        PoisonLock { lock: Lock::new(), poison: AtomicBool::new(false), born_poisoned: Ghost(false) }
    }

    /// Creates a lock around `lock`, poisoned or not.
    pub fn with_lock(lock: Lock, poisoned: bool) -> (made: Self)
        ensures
            made.spec_word() == lock,
            made.born_poisoned() == poisoned,
    {
        PoisonLock { lock, poison: AtomicBool::new(poisoned), born_poisoned: Ghost(poisoned) }
    }

    /// The lock word.
    pub fn word(&self) -> (lock: &Lock)
        ensures
            *lock == self.spec_word(),
    {
        &self.lock
    }

    /// Whether a writer has failed inside its critical section since the
    /// poison was last removed.
    pub fn is_poisoned(&self) -> (poisoned: bool) {
        self.poison.load(Ordering::Acquire)
    }

    /// Marks the lock as poisoned.
    pub fn poison(&self) {
        self.poison.store(true, Ordering::Release);
    }

    /// Clears the poison mark.
    pub fn remove_poison(&self) {
        self.poison.store(false, Ordering::Release);
    }
}

/// The part of an allocation that synchronises access to its payload: the
/// poison-aware lock, and the number of elements the payload holds.
pub struct InnerRwLock {
    pub lock: PoisonLock,
    pub len: usize,
}

impl InnerRwLock {
    /// The synchronisation block of a fresh payload of `len` elements:
    /// unlocked and without poison.
    pub fn new(len: usize) -> (inner: Self)
        ensures
            inner.len == len,
            inner.lock.spec_word().born() == EMPTY,
            !inner.lock.born_poisoned(),
    {
        InnerRwLock { lock: PoisonLock::new(), len }
    }
}

} // verus!
