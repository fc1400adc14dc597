//! Channels through which the replicas of a simulation combine values.

use std::ops::Add;
use vstd::prelude::*;

verus! {

/// The sending end of a synchronised adder.
pub trait SyncAddSend<T> {
    type Error;

    /// Sends `value` to the adder.
    fn send(&mut self, value: T) -> Result<(), Self::Error>;

    /// Sends an empty message to the adder.
    fn send_empty(&mut self) -> Result<(), Self::Error>;
}

/// The receiving end of a synchronised adder.
pub trait SyncAddRecv<T> {
    type Error;

    /// Recieves the sum of all non-empty messages.
    fn recieve_sum(&mut self) -> Result<Option<T>, Self::Error>;
}

/// The sending end of a synchronised multiplier.
pub trait SyncMulSend<T> {
    type Error;

    /// Sends `value` to the multiplier.
    fn send(&mut self, value: T) -> Result<(), Self::Error>;

    /// Sends an empty message to the multiplier.
    fn send_empty(&mut self) -> Result<(), Self::Error>;
}

/// The receiving end of a synchronised multiplier.
pub trait SyncMulRecv<T> {
    type Error;

    /// Recieves the product of all non-empty messages.
    fn recieve_prod(&mut self) -> Result<Option<T>, Self::Error>;
}

/// A synchronised adder failed.
pub struct SyncAddError;

/// The sending end of an adder that fails with [`SyncAddError`].
pub trait SyncAdderSender<T: Add<Output = T>> {
    fn send(&mut self, value: T) -> Result<(), SyncAddError>;
}

/// The receiving end of an adder that fails with [`SyncAddError`].
pub trait SyncAdderReciever<T> {
    fn recieve(&mut self) -> Result<T, SyncAddError>;
}

} // verus!
