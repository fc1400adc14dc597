//! The reference-count header: one 64-bit word whose lower half counts the
//! live shared handles of an allocation and whose upper half counts the live
//! unique handles.
//!
//! A handle adds its category's unit when it comes to life and subtracts it
//! when it is released. The release that finds the word equal to exactly its
//! own unit is the one that empties the header, and the only one that may
//! drop the payload and free the allocation.

use std::sync::atomic::AtomicU64;
use std::sync::atomic::Ordering;
use vstd::prelude::*;

verus! {

/// The unit of the shared half.
pub const SHARED_ONE: u64 = 1;

/// The unit of the unique half.
pub const UNIQUE_ONE: u64 = 0x1_0000_0000;

/// The bits of the shared half.
pub const SHARED_MASK: u64 = 0xFFFF_FFFF;

/// How far the unique half is shifted inside the word.
pub const UNIQUE_SHIFT: u64 = 32;

/// The largest count either half can carry.
pub const HALF_MAX: u64 = 0xFFFF_FFFF;

/// The two accounting buckets of the header.
#[derive(Clone, Copy, Debug, PartialEq, Eq, Structural)]
pub enum Category {
    /// Handles that can be duplicated.
    Shared,
    /// Handles that came from splitting exclusive ownership.
    Unique,
}

/// The number of live shared handles recorded in a word.
pub open spec fn shared(word: u64) -> nat {
    (word % 0x1_0000_0000) as nat
}

/// The number of live unique handles recorded in a word.
pub open spec fn unique(word: u64) -> nat {
    (word / 0x1_0000_0000) as nat
}

/// The number of live handles of one category recorded in a word.
pub open spec fn count(category: Category, word: u64) -> nat {
    match category {
        Category::Shared => shared(word),
        Category::Unique => unique(word),
    }
}

/// The value that one handle of a category adds to the word.
pub open spec fn unit(category: Category) -> u64 {
    match category {
        Category::Shared => SHARED_ONE,
        Category::Unique => UNIQUE_ONE,
    }
}

/// The number of live handles of both categories recorded in a word.
pub open spec fn total(word: u64) -> nat {
    shared(word) + unique(word)
}

/// A word is the sum, half by half, of its two counts.
pub proof fn lemma_header_halves(word: u64)
    ensures
        word & SHARED_MASK == word % 0x1_0000_0000,
        word >> UNIQUE_SHIFT == word / 0x1_0000_0000,
        word == unique(word) * UNIQUE_ONE + shared(word) * SHARED_ONE,
        shared(word) <= HALF_MAX,
        unique(word) <= HALF_MAX,
        total(word) == 0 <==> word == 0,
{
    assert(word & 0xFFFF_FFFFu64 == word % 0x1_0000_0000) by (bit_vector);
    assert(word >> 32u64 == word / 0x1_0000_0000) by (bit_vector);
}

/// The value that one handle of a category adds to the word.
pub fn unit_of(category: Category) -> (one: u64)
    ensures
        one == unit(category),
{
    match category {
        Category::Shared => SHARED_ONE,
        Category::Unique => UNIQUE_ONE,
    }
}

/// The count that a word records for a category.
pub fn count_of(category: Category, word: u64) -> (n: u64)
    ensures
        n == count(category, word),
        n <= HALF_MAX,
{
    proof {
        lemma_header_halves(word);
    }
    match category {
        Category::Shared => word & SHARED_MASK,
        Category::Unique => word >> UNIQUE_SHIFT,
    }
}

/// Whether adding a handle of `category` to a word that was `previous`
/// overflowed that half: it did exactly when the half was already full.
pub fn increment_overflows(category: Category, previous: u64) -> (overflowed: bool)
    ensures
        overflowed == (count(category, previous) == HALF_MAX),
{
    count_of(category, previous) == HALF_MAX
}

/// Whether taking a handle of `category` off a word that was `previous`
/// emptied the header: it did exactly when the word was that category's unit,
/// so that the handle released was the last of either category.
pub fn decrement_empties(category: Category, previous: u64) -> (emptied: bool)
    ensures
        emptied == (previous == unit(category)),
        emptied == (count(category, previous) == 1 && total(previous) == 1),
{
    proof {
        lemma_header_halves(previous);
    }
    previous == unit_of(category)
}

/// What a handle does to the header.
pub enum Event {
    /// A handle of this category comes to life: a clone, or a split.
    Acquire(Category),
    /// A handle of this category is released.
    Drop(Category),
}

/// Whether an event can happen when the header holds `word`: a handle is
/// made from a live one, while its half has room; a handle that is released
/// was counted.
pub open spec fn enabled(word: u64, event: Event) -> bool {
    match event {
        Event::Acquire(category) => total(word) > 0 && count(category, word) < HALF_MAX,
        Event::Drop(category) => count(category, word) > 0,
    }
}

/// The word after an event.
pub open spec fn after(word: u64, event: Event) -> u64 {
    match event {
        Event::Acquire(category) => (word + unit(category)) as u64,
        Event::Drop(category) => (word - unit(category)) as u64,
    }
}

/// Whether an event is a release that reports the header as emptied.
pub open spec fn frees(word: u64, event: Event) -> bool {
    match event {
        Event::Acquire(_) => false,
        Event::Drop(category) => word == unit(category),
    }
}

/// The word after a sequence of events.
pub open spec fn run(start: u64, events: Seq<Event>) -> u64
    decreases events.len(),
{
    if events.len() == 0 {
        start
    } else {
        after(run(start, events.drop_last()), events.last())
    }
}

/// Whether each event of a sequence can happen when its turn comes.
pub open spec fn admissible(start: u64, events: Seq<Event>) -> bool
    decreases events.len(),
{
    events.len() == 0 || (admissible(start, events.drop_last()) && enabled(
        run(start, events.drop_last()),
        events.last(),
    ))
}

/// How many events of a sequence report the header as emptied.
pub open spec fn frees_in(start: u64, events: Seq<Event>) -> nat
    decreases events.len(),
{
    if events.len() == 0 {
        0
    } else {
        frees_in(start, events.drop_last()) + if frees(
            run(start, events.drop_last()),
            events.last(),
        ) {
            1nat
        } else {
            0nat
        }
    }
}

/// An enabled event moves the count of its category by one and leaves the
/// other half alone.
pub proof fn lemma_event_counts(word: u64, event: Event)
    requires
        enabled(word, event),
    ensures
        match event {
            Event::Acquire(category) => count(category, after(word, event)) == count(
                category,
                word,
            ) + 1 && total(after(word, event)) == total(word) + 1,
            Event::Drop(category) => count(category, after(word, event)) == count(category, word)
                - 1 && total(after(word, event)) == total(word) - 1,
        },
        frees(word, event) <==> after(word, event) == 0,
{
    lemma_header_halves(word);
    lemma_header_halves(after(word, event));
    let low = word % 0x1_0000_0000;
    let high = word / 0x1_0000_0000;
    assert(word == high * 0x1_0000_0000 + low);
}

/// How many handles of a category a sequence of events adds, less how many it
/// takes away.
pub open spec fn net(category: Category, events: Seq<Event>) -> int
    decreases events.len(),
{
    if events.len() == 0 {
        0
    } else {
        net(category, events.drop_last()) + match events.last() {
            Event::Acquire(c) => if c == category {
                1int
            } else {
                0int
            },
            Event::Drop(c) => if c == category {
                -1int
            } else {
                0int
            },
        }
    }
}

/// The header counts the live handles. After any admissible sequence of
/// events each half holds what it held at first, plus the handles of its
/// category that came to life, less those that were released.
pub proof fn lemma_header_counts_handles(start: u64, events: Seq<Event>, category: Category)
    requires
        admissible(start, events),
    ensures
        count(category, run(start, events)) == count(category, start) + net(category, events),
    decreases events.len(),
{
    if events.len() > 0 {
        lemma_header_counts_handles(start, events.drop_last(), category);
        let before = run(start, events.drop_last());
        lemma_event_counts(before, events.last());
        lemma_header_halves(before);
        lemma_header_halves(run(start, events));
        match events.last() {
            Event::Acquire(c) => {
                lemma_other_half(before, c, true);
            },
            Event::Drop(c) => {
                lemma_other_half(before, c, false);
            },
        }
    }
}

/// Adding or taking one handle of a category leaves the count of the other
/// category as it was.
pub proof fn lemma_other_half(word: u64, category: Category, acquire: bool)
    requires
        acquire ==> count(category, word) < HALF_MAX,
        !acquire ==> count(category, word) > 0,
    ensures
        ({
            let next = if acquire {
                (word + unit(category)) as u64
            } else {
                (word - unit(category)) as u64
            };
            forall|other: Category| other != category ==> count(other, next) == count(other, word)
        }),
{
    lemma_header_halves(word);
    let low = word % 0x1_0000_0000;
    let high = word / 0x1_0000_0000;
    assert(word == high * 0x1_0000_0000 + low);
}

/// Exactly-once deallocation. Start from a header that counts at least one
/// handle and let handles be cloned, split and released in any admissible
/// order. No release but the one that leaves the header at zero reports it as
/// emptied: while handles remain nothing was freed, and once none remains
/// exactly one release has freed.
pub proof fn lemma_exactly_once(start: u64, events: Seq<Event>)
    requires
        total(start) > 0,
        admissible(start, events),
    ensures
        total(run(start, events)) > 0 ==> frees_in(start, events) == 0,
        total(run(start, events)) == 0 ==> frees_in(start, events) == 1,
    decreases events.len(),
{
    lemma_header_halves(run(start, events));
    if events.len() > 0 {
        let before = run(start, events.drop_last());
        lemma_exactly_once(start, events.drop_last());
        lemma_header_halves(before);
        lemma_event_counts(before, events.last());
    }
}

/// Exactly-once deallocation, from the start. A header made for a first owner
/// of either category counts one handle; whatever admissible events follow,
/// nothing is freed while handles remain, and exactly one release has freed
/// once none remains.
pub proof fn lemma_fresh_header_frees_once(first: Category, events: Seq<Event>)
    requires
        admissible(unit(first), events),
    ensures
        total(unit(first)) == 1,
        total(run(unit(first), events)) > 0 ==> frees_in(unit(first), events) == 0,
        total(run(unit(first), events)) == 0 ==> frees_in(unit(first), events) == 1,
{
    lemma_header_halves(unit(first));
    lemma_exactly_once(unit(first), events);
}

/// Once the header is empty nothing more can happen to it: the release that
/// frees is the last event of any admissible sequence.
pub proof fn lemma_nothing_after_free(word: u64, event: Event)
    requires
        total(word) == 0,
    ensures
        !enabled(word, event),
{
}

/// What an increment found and decided.
#[derive(Clone, Copy, Debug, PartialEq, Eq, Structural)]
pub struct Increment {
    /// The word before the unit was added.
    pub previous: u64,
    /// Whether the half was already full, so that the caller must not go on.
    pub overflowed: bool,
}

/// What a decrement found and decided.
#[derive(Clone, Copy, Debug, PartialEq, Eq, Structural)]
pub struct Decrement {
    /// The word before the unit was subtracted.
    pub previous: u64,
    /// Whether this decrement emptied the header.
    pub emptied: bool,
}

/// The header word in its atomic cell. What the cell holds changes under the
/// hands of other threads and has no value in specifications; what it held
/// when the header was made has.
pub struct Header {
    cell: AtomicU64,
    born: Ghost<u64>,
}

impl Header {
    /// The word that the header held when it was made: the word from which
    /// the events of its allocation start.
    pub closed spec fn born(&self) -> u64 {
        self.born@
    }

    /// A header that counts one handle, of the category of the first owner.
    pub fn new(first: Category) -> (header: Self)
        ensures
            header.born() == unit(first),
            count(first, header.born()) == 1,
            total(header.born()) == 1,
    {
        proof {
            lemma_header_halves(unit(first));
        }
        let word: u64 = unit_of(first);
        Header { cell: AtomicU64::new(word), born: Ghost(word) }
    }

    /// A header that holds `word`.
    pub fn with_word(word: u64) -> (header: Self)
        ensures
            header.born() == word,
    {
        Header { cell: AtomicU64::new(word), born: Ghost(word) }
    }

    /// The word as it is at some moment during the call.
    pub fn load(&self) -> (word: u64) {
        self.cell.load(Ordering::Relaxed)
    }

    /// Counts one more handle of `category`, with a single atomic addition.
    pub fn increment(&self, category: Category) -> (done: Increment)
        ensures
            done.overflowed == (count(category, done.previous) == HALF_MAX),
    {
        let previous: u64 = self.cell.fetch_add(unit_of(category), Ordering::Release);
        Increment { previous, overflowed: increment_overflows(category, previous) }
    }

    /// Counts one handle of `category` less, with a single atomic
    /// subtraction. The decrement that empties the header synchronises with
    /// every earlier release before it answers.
    pub fn decrement(&self, category: Category) -> (done: Decrement)
        ensures
            done.emptied == (done.previous == unit(category)),
    {
        let previous: u64 = self.cell.fetch_sub(unit_of(category), Ordering::Release);
        let emptied: bool = decrement_empties(category, previous);
        if emptied {
            std::sync::atomic::fence(Ordering::Acquire);
        }
        Decrement { previous, emptied }
    }

    /// Counts one more shared handle. Answers whether the shared half was
    /// already full.
    pub fn increment_shared_counter(&self) -> (done: Increment)
        ensures
            done.overflowed == (shared(done.previous) == HALF_MAX),
    {
        self.increment(Category::Shared)
    }

    /// Counts one more unique handle. Answers whether the unique half was
    /// already full.
    pub fn increment_unique_counter(&self) -> (done: Increment)
        ensures
            done.overflowed == (unique(done.previous) == HALF_MAX),
    {
        self.increment(Category::Unique)
    }

    /// Counts one shared handle less. Answers whether that emptied the
    /// header.
    pub fn decrement_shared_counter(&self) -> (done: Decrement)
        ensures
            done.emptied == (done.previous == SHARED_ONE),
    {
        self.decrement(Category::Shared)
    }

    /// Counts one unique handle less. Answers whether that emptied the
    /// header.
    pub fn decrement_unique_counter(&self) -> (done: Decrement)
        ensures
            done.emptied == (done.previous == UNIQUE_ONE),
    {
        self.decrement(Category::Unique)
    }
}

} // verus!
