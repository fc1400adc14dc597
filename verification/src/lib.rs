//! A reference-counted lock that lets many threads hold disjoint mutable
//! subfields of one shared payload at the same time, and still allows
//! consistent reads of the whole payload.
//!
//! The lock has two modes that exclude each other. Any number of subfield
//! writers may be inside together, because the handles they write through
//! map disjoint parts of the payload; any number of whole-object readers may
//! be inside together; readers and writers never are.
//!
//! - [`word`] is the lock word as plain integers: its states, its
//!   transitions, and the laws they obey.
//! - [`inner`] keeps the word in an atomic cell and runs the transitions on
//!   it, next to the poison flag.
//! - [`header`] is the reference count of an allocation, two counters in one
//!   word, and the law that an allocation is freed exactly once.
//! - [`region`] names parts of a payload and proves that splitting a slice
//!   element by element partitions it.
//! - [`lock`] has the mapped handles and their guards, [`arc`] the owners
//!   that keep an allocation alive, [`slice`] the iterators that take a slice
//!   owner apart.
//! - [`sim`] is the interface of the simulation layer that uses the lock.
//!
//! This crate holds no payload. It says which elements a handle or a guard
//! gives access to, as a [`region::Region`]; turning a region into references
//! is left to the code that owns the memory.

pub mod arc;
pub mod header;
pub mod inner;
pub mod lock;
pub mod region;
pub mod sim;
pub mod slice;
pub mod word;
