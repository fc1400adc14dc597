//! The lock word: one `u32` that holds a mode flag in bit 0 and a holder
//! count in the remaining 31 bits.
//!
//! Everything here is a function of plain integers. The atomic cell that
//! stores the word lives in [`crate::inner`]; it hands each loaded value to the
//! planning functions below and installs what they answer with a single
//! compare-and-swap.

use vstd::prelude::*;

verus! {

/// The word of an unlocked lock.
pub const EMPTY: u32 = 0;

/// Bit 0: set while the holders are subfield writers.
pub const WRITE_FLAG: u32 = 1;

/// The value that adds one holder to a word.
pub const COUNTER_ONE: u32 = 2;

/// The bits that hold the holder count.
pub const COUNTER_MASK: u32 = 0xFFFF_FFFE;

/// How far the holder count is shifted inside the word.
pub const COUNTER_SHIFT: u32 = 1;

/// The largest holder count a word can carry.
pub const COUNTER_MAX: u32 = 0x7FFF_FFFF;

/// What a lock word stands for.
pub enum LockState {
    /// Nobody holds the lock.
    Idle,
    /// This many subfield writers hold the lock.
    Writing(nat),
    /// This many whole-object readers hold the lock.
    Reading(nat),
}

/// What an acquisition does in a given state.
pub enum Grant {
    /// The caller enters and the lock moves to this state.
    Enter(LockState),
    /// The opposing mode is active: the caller has to wait.
    Wait,
    /// One more holder would not fit in the count.
    Fatal,
}

/// What a release does in a given state.
pub enum Leave {
    /// Other holders remain; the lock moves to this state.
    Stay(LockState),
    /// The last holder left; waiters must be woken.
    Last,
    /// The state has no holder of the releasing kind.
    Refused,
}

impl LockState {
    /// `acquire_write`: idle and writing states admit one more writer,
    /// reading states make the writer wait.
    pub open spec fn acquire_write(self) -> Grant {
        match self {
            LockState::Idle => Grant::Enter(LockState::Writing(1)),
            LockState::Writing(n) => if n >= COUNTER_MAX {
                Grant::Fatal
            } else {
                Grant::Enter(LockState::Writing(n + 1))
            },
            LockState::Reading(_) => Grant::Wait,
        }
    }

    /// `acquire_read_whole`: idle and reading states admit one more reader,
    /// writing states make the reader wait.
    pub open spec fn acquire_read_whole(self) -> Grant {
        match self {
            LockState::Idle => Grant::Enter(LockState::Reading(1)),
            LockState::Reading(n) => if n >= COUNTER_MAX {
                Grant::Fatal
            } else {
                Grant::Enter(LockState::Reading(n + 1))
            },
            LockState::Writing(_) => Grant::Wait,
        }
    }

    /// `release_writer`: only a writing state with at least one writer can
    /// lose one.
    pub open spec fn release_writer(self) -> Leave {
        match self {
            LockState::Writing(n) => if n == 1 {
                Leave::Last
            } else if n > 1 {
                Leave::Stay(LockState::Writing((n - 1) as nat))
            } else {
                Leave::Refused
            },
            _ => Leave::Refused,
        }
    }

    /// `release_reader`: only a reading state with at least one reader can
    /// lose one.
    pub open spec fn release_reader(self) -> Leave {
        match self {
            LockState::Reading(n) => if n == 1 {
                Leave::Last
            } else if n > 1 {
                Leave::Stay(LockState::Reading((n - 1) as nat))
            } else {
                Leave::Refused
            },
            _ => Leave::Refused,
        }
    }

    /// The number of subfield writers inside.
    pub open spec fn writers(self) -> nat {
        match self {
            LockState::Writing(n) => n,
            _ => 0,
        }
    }

    /// The number of whole-object readers inside.
    pub open spec fn readers(self) -> nat {
        match self {
            LockState::Reading(n) => n,
            _ => 0,
        }
    }

    /// A state that a lock can be in: a mode is only ever active with at
    /// least one holder, and never with more than the count can carry.
    pub open spec fn valid(self) -> bool {
        match self {
            LockState::Idle => true,
            LockState::Writing(n) => 1 <= n <= COUNTER_MAX,
            LockState::Reading(n) => 1 <= n <= COUNTER_MAX,
        }
    }

    /// The word that stores this state.
    pub open spec fn word(self) -> u32
        recommends
            self.valid(),
    {
        match self {
            LockState::Idle => EMPTY,
            LockState::Writing(n) => (2 * n + 1) as u32,
            LockState::Reading(n) => (2 * n) as u32,
        }
    }
}

/// The holder count stored in a word.
pub open spec fn holders(word: u32) -> nat {
    (word / 2) as nat
}

/// Whether a word has the write flag set.
pub open spec fn write_flag(word: u32) -> bool {
    word % 2 == 1
}

/// The state a word stands for. Only [`EMPTY`] is idle; otherwise the flag
/// picks the mode and the upper bits give the count.
pub open spec fn state(word: u32) -> LockState {
    if word == EMPTY {
        LockState::Idle
    } else if write_flag(word) {
        LockState::Writing(holders(word))
    } else {
        LockState::Reading(holders(word))
    }
}

/// What the acquire loops do with a loaded word.
#[derive(Clone, Copy, Debug, PartialEq, Eq, Structural)]
pub enum Step {
    /// Try to replace the loaded word by this one.
    Swap(u32),
    /// The opposing mode is active.
    Park,
    /// The holder count is at its maximum.
    Overflow,
}

/// What the release paths do with a loaded word.
#[derive(Clone, Copy, Debug, PartialEq, Eq, Structural)]
pub enum Release {
    /// Replace the loaded word by `new`; `wake` says whether the lock became
    /// idle, so that every waiter has to be woken.
    Swap { new: u32, wake: bool },
    /// The word holds nobody of the releasing kind.
    NotHeld,
}

/// The step that a grant in state `state(loaded)` asks for.
pub open spec fn step_of(grant: Grant) -> Step {
    match grant {
        Grant::Enter(next) => Step::Swap(next.word()),
        Grant::Wait => Step::Park,
        Grant::Fatal => Step::Overflow,
    }
}

/// The release that leaving in some state asks for.
pub open spec fn release_of(leave: Leave) -> Release {
    match leave {
        Leave::Stay(next) => Release::Swap { new: next.word(), wake: false },
        Leave::Last => Release::Swap { new: EMPTY, wake: true },
        Leave::Refused => Release::NotHeld,
    }
}

/// The plan of a subfield writer that loaded `loaded`.
pub open spec fn plan_write(loaded: u32) -> Step {
    step_of(state(loaded).acquire_write())
}

/// The plan of a whole-object reader that loaded `loaded`.
pub open spec fn plan_read_whole(loaded: u32) -> Step {
    step_of(state(loaded).acquire_read_whole())
}

/// The plan of a subfield writer that gives its slot back.
pub open spec fn plan_drop_writer(loaded: u32) -> Release {
    release_of(state(loaded).release_writer())
}

/// The plan of a whole-object reader that gives its slot back.
pub open spec fn plan_drop_whole_reader(loaded: u32) -> Release {
    release_of(state(loaded).release_reader())
}

/// Shifts and masks on a word agree with division and remainder.
pub proof fn lemma_word_bits(word: u32)
    ensures
        word >> COUNTER_SHIFT == word / 2,
        word & WRITE_FLAG == word % 2,
        word & COUNTER_MASK == 2 * (word / 2),
        WRITE_FLAG | COUNTER_ONE == 3,
{
    assert(word >> 1u32 == word / 2) by (bit_vector);
    assert(word & 1u32 == word % 2) by (bit_vector);
    assert(word & 0xFFFF_FFFEu32 == 2 * (word / 2)) by (bit_vector);
    assert(1u32 | 2u32 == 3u32) by (bit_vector);
}

/// The holder count of a word.
pub fn counter(word: u32) -> (count: u32)
    ensures
        count == holders(word),
        count <= COUNTER_MAX,
{
    proof {
        lemma_word_bits(word);
    }
    word >> COUNTER_SHIFT
}

/// Whether the write flag of a word is set.
pub fn is_write(word: u32) -> (flag: bool)
    ensures
        flag == write_flag(word),
{
    proof {
        lemma_word_bits(word);
    }
    word & WRITE_FLAG != 0
}

/// Decides what a subfield writer does after loading `loaded`: enter an idle
/// lock, join the writers already inside, report a full count, or wait for
/// the readers to leave.
pub fn write_step(loaded: u32) -> (step: Step)
    ensures
        step == plan_write(loaded),
{
    proof {
        lemma_word_bits(loaded);
    }
    if loaded == EMPTY {
        Step::Swap(WRITE_FLAG | COUNTER_ONE)
    } else if is_write(loaded) {
        if counter(loaded) == COUNTER_MAX {
            Step::Overflow
        } else {
            Step::Swap(loaded + COUNTER_ONE)
        }
    } else {
        Step::Park
    }
}

/// Decides what a whole-object reader does after loading `loaded`: enter an
/// idle lock, join the readers already inside, report a full count, or wait
/// for the writers to leave.
pub fn read_whole_step(loaded: u32) -> (step: Step)
    ensures
        step == plan_read_whole(loaded),
{
    proof {
        lemma_word_bits(loaded);
    }
    if loaded == EMPTY {
        Step::Swap(COUNTER_ONE)
    } else if !is_write(loaded) {
        if counter(loaded) == COUNTER_MAX {
            Step::Overflow
        } else {
            Step::Swap(loaded + COUNTER_ONE)
        }
    } else {
        Step::Park
    }
}

/// Decides how a subfield writer gives its slot back after loading `loaded`:
/// the last writer empties the word and wakes the waiters, any other takes
/// one off the count.
pub fn drop_writer_step(loaded: u32) -> (release: Release)
    ensures
        release == plan_drop_writer(loaded),
{
    proof {
        lemma_word_bits(loaded);
    }
    if !is_write(loaded) {
        return Release::NotHeld;
    }
    let count: u32 = counter(loaded);
    if count == 0 {
        Release::NotHeld
    } else if count == 1 {
        Release::Swap { new: EMPTY, wake: true }
    } else {
        Release::Swap { new: loaded - COUNTER_ONE, wake: false }
    }
}

/// Says what a whole-object reader did by subtracting [`COUNTER_ONE`] from a
/// word that was `previous`: the last reader left the word empty and has to
/// wake the waiters, any other took one off the count.
pub fn drop_whole_reader_step(previous: u32) -> (release: Release)
    ensures
        release == plan_drop_whole_reader(previous),
        release matches Release::Swap { new, .. } ==> new == previous - COUNTER_ONE,
{
    proof {
        lemma_word_bits(previous);
    }
    if previous == EMPTY || is_write(previous) {
        Release::NotHeld
    } else {
        Release::Swap { new: previous - COUNTER_ONE, wake: previous == COUNTER_ONE }
    }
}

/// Whether one successful operation on the lock can replace the word `a` by
/// the word `b`: an acquisition or a release of either kind, as planned.
pub open spec fn follows(a: u32, b: u32) -> bool {
    ||| plan_write(a) == Step::Swap(b)
    ||| plan_read_whole(a) == Step::Swap(b)
    ||| exists|wake: bool| plan_drop_writer(a) == (Release::Swap { new: b, wake })
    ||| exists|wake: bool| plan_drop_whole_reader(a) == (Release::Swap { new: b, wake })
}

/// A history of a lock word: it starts empty, and each word follows from the
/// one before it.
pub open spec fn history(words: Seq<u32>) -> bool {
    &&& words.len() > 0
    &&& words[0] == EMPTY
    &&& forall|i: int| 1 <= i < words.len() ==> follows(words[i - 1], #[trigger] words[i])
}

/// A word that stores a valid state stores it faithfully.
pub proof fn lemma_state_word(word: u32)
    requires
        state(word).valid(),
    ensures
        state(word).word() == word,
        word != WRITE_FLAG,
{
}

/// The word of a valid state stands for that state.
pub proof fn lemma_word_state(s: LockState)
    requires
        s.valid(),
    ensures
        state(s.word()) == s,
{
}

/// One operation keeps a valid state valid.
pub proof fn lemma_follows_valid(a: u32, b: u32)
    requires
        state(a).valid(),
        follows(a, b),
    ensures
        state(b).valid(),
{
}

/// One operation moves one holder in or out, and never turns one mode into
/// the other: between writing and reading the lock is idle.
pub proof fn lemma_follows_moves_one(a: u32, b: u32)
    requires
        state(a).valid(),
        follows(a, b),
    ensures
        holders(b) == holders(a) + 1 || holders(b) == holders(a) - 1,
        state(a).writers() > 0 ==> state(b).readers() == 0,
        state(a).readers() > 0 ==> state(b).writers() == 0,
{
}

/// No mode mixing. Every word that a lock can reach stands for a valid
/// state: it is idle exactly when it holds nobody, and when it holds somebody
/// then either writers are inside or readers are, never both.
pub proof fn lemma_no_mode_mixing(words: Seq<u32>, at: int)
    requires
        history(words),
        0 <= at < words.len(),
    ensures
        state(words[at]).valid(),
        holders(words[at]) == 0 <==> state(words[at]) == LockState::Idle,
        holders(words[at]) > 0 ==> (state(words[at]).writers() > 0) != (state(
            words[at],
        ).readers() > 0),
        !(state(words[at]).writers() > 0 && state(words[at]).readers() > 0),
    decreases at,
{
    if at > 0 {
        lemma_no_mode_mixing(words, at - 1);
        lemma_follows_valid(words[at - 1], words[at]);
    }
}

/// Writer fan-out. With any number of writers inside below the bound, one
/// more writer enters at once: it is never told to wait, and the count goes
/// up by one.
pub proof fn lemma_writer_fan_out(word: u32)
    requires
        state(word).valid(),
        state(word).readers() == 0,
        state(word).writers() < COUNTER_MAX,
    ensures
        plan_write(word) == Step::Swap(LockState::Writing(state(word).writers() + 1).word()),
        plan_write(word) matches Step::Swap(next) && state(next) == LockState::Writing(
            state(word).writers() + 1,
        ),
{
}

/// Reader fan-out. With any number of readers inside below the bound, one
/// more reader enters at once: it is never told to wait, and the count goes
/// up by one.
pub proof fn lemma_reader_fan_out(word: u32)
    requires
        state(word).valid(),
        state(word).writers() == 0,
        state(word).readers() < COUNTER_MAX,
    ensures
        plan_read_whole(word) == Step::Swap(LockState::Reading(state(word).readers() + 1).word()),
        plan_read_whole(word) matches Step::Swap(next) && state(next) == LockState::Reading(
            state(word).readers() + 1,
        ),
{
}

/// The word of a lock with `n` subfield writers inside and no reader.
pub open spec fn writers_word(n: nat) -> u32 {
    if n == 0 {
        EMPTY
    } else {
        LockState::Writing(n).word()
    }
}

/// The word of a lock with `n` whole-object readers inside and no writer.
pub open spec fn readers_word(n: nat) -> u32 {
    if n == 0 {
        EMPTY
    } else {
        LockState::Reading(n).word()
    }
}

/// Writer fan-out, for any number of writers. Up to the bound of the count,
/// `n` writers that come one after the other all enter an empty lock: none of
/// them is told to wait, and the `k`-th finds `k` writers inside and leaves
/// `k + 1`.
pub proof fn lemma_writers_enter(n: nat)
    requires
        n <= COUNTER_MAX,
    ensures
        forall|k: nat|
            k < n ==> plan_write(#[trigger] writers_word(k)) == Step::Swap(writers_word(k + 1)),
        state(writers_word(n)).valid(),
        state(writers_word(n)).writers() == n,
        state(writers_word(n)).readers() == 0,
{
}

/// Reader fan-out, for any number of readers. Up to the bound of the count,
/// `n` readers that come one after the other all enter an empty lock: none of
/// them is told to wait, and the `k`-th finds `k` readers inside and leaves
/// `k + 1`.
pub proof fn lemma_readers_enter(n: nat)
    requires
        n <= COUNTER_MAX,
    ensures
        forall|k: nat|
            k < n ==> plan_read_whole(#[trigger] readers_word(k)) == Step::Swap(
                readers_word(k + 1),
            ),
        state(readers_word(n)).valid(),
        state(readers_word(n)).readers() == n,
        state(readers_word(n)).writers() == 0,
{
}

/// Mutual exclusion across modes. While a reader is inside every writer is
/// told to wait, and while a writer is inside every reader is. When the last
/// holder of one mode leaves, the word is empty and the other mode can enter.
pub proof fn lemma_modes_exclude(word: u32)
    requires
        state(word).valid(),
    ensures
        state(word).readers() > 0 ==> plan_write(word) == Step::Park,
        state(word).writers() > 0 ==> plan_read_whole(word) == Step::Park,
        plan_write(word) is Swap ==> state(word).readers() == 0,
        plan_read_whole(word) is Swap ==> state(word).writers() == 0,
        state(word).readers() == 1 ==> plan_drop_whole_reader(word) == (Release::Swap {
            new: EMPTY,
            wake: true,
        }),
        state(word).writers() == 1 ==> plan_drop_writer(word) == (Release::Swap {
            new: EMPTY,
            wake: true,
        }),
        plan_write(EMPTY) == Step::Swap(LockState::Writing(1).word()),
        plan_read_whole(EMPTY) == Step::Swap(LockState::Reading(1).word()),
{
}

/// A release wakes the waiters exactly when it leaves the lock idle.
pub proof fn lemma_wake_iff_idle(word: u32)
    requires
        state(word).valid(),
    ensures
        plan_drop_writer(word) matches Release::Swap { new, wake } ==> (wake <==> state(new)
            == LockState::Idle),
        plan_drop_whole_reader(word) matches Release::Swap { new, wake } ==> (wake <==> state(new)
            == LockState::Idle),
{
}

} // verus!
