//! Error taxonomy of the broadcast primitive.

use vstd::prelude::*;

verus! {

/// Failure of a `broadcast` call.
///
/// Per-listener delivery failures are aggregated into one
/// `DeliveryFailed` value naming every failing listener by its index
/// in registration order; a corrupted shared-list lock is fatal for
/// the call and reported as `LockCorrupted`.
#[derive(Debug, PartialEq, Eq)]
pub enum BroadcastError {
    /// The lock guarding the shared listener list was left
    /// inconsistent by an abnormal holder.
    LockCorrupted,
    /// At least one listener's channel was closed during the
    /// fan-out; the payload lists the indices, in registration
    /// order, of every listener whose delivery failed.
    DeliveryFailed(Vec<usize>),
}

/// Failure of a listener registration: the registration channel is
/// already closed because the broadcaster was torn down.
#[derive(Debug, PartialEq, Eq, Structural)]
pub enum RegistrationError {
    RegistrationFailed,
}

} // verus!
