//! The error types shared by the channel flavors.
//!
//! Each variant records one of the closed set of failure modes:
//! `Full` and `Empty` are transient and retriable, `Disconnected` is
//! terminal for the operation that observed it.

use vstd::prelude::*;

verus! {

/// Failure modes of a non-blocking send on a bounded channel.
#[derive(PartialEq, Eq, Clone, Copy, Debug)]
pub enum TrySendError<T> {
    /// The channel's buffer was already full.
    ///
    /// Carries the item that could not be sent.
    Full(T),
    /// The receiving endpoint has disconnected and no further send
    /// can succeed.
    ///
    /// Carries the item that could not be sent.
    Disconnected(T),
}

/// Failure modes of a non-blocking receive.
#[derive(PartialEq, Eq, Clone, Copy, Debug)]
pub enum TryRecvError {
    /// No data was pending in the channel.
    Empty,
    /// The sending endpoint has disconnected and every item sent
    /// before the disconnect has already been received.
    Disconnected,
}

/// Error of a blocking send.
///
/// Returned when the receiving endpoint has disconnected; carries the
/// item that could not be sent.
#[derive(PartialEq, Eq, Clone, Copy, Debug)]
pub struct SendError<T>(pub T);

/// Error of a blocking receive.
///
/// Returned when the sending endpoint has disconnected and every item
/// sent before the disconnect has already been received.
#[derive(PartialEq, Eq, Clone, Copy, Debug)]
pub struct RecvError {}

} // verus!
