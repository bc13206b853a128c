//! Trusted boundary around the channel and mutual-exclusion
//! primitives that the broadcaster is built on: crossbeam-channel's
//! unbounded channels and std's `Mutex`.
//!
//! Every item here is believed, not proved. Each wrapper's body holds
//! one outside call and the conversion of its result; nothing about a
//! channel's or a lock's hidden state is claimed, only what holds of
//! every outcome.

use vstd::prelude::*;

use crossbeam_channel::Receiver;
use crossbeam_channel::Sender;
use std::sync::Mutex;
use std::sync::MutexGuard;

verus! {

#[verifier::external_type_specification]
#[verifier::external_body]
#[verifier::reject_recursive_types(T)]
pub struct ExSender<T>(Sender<T>);

#[verifier::external_type_specification]
#[verifier::external_body]
#[verifier::reject_recursive_types(T)]
pub struct ExReceiver<T>(Receiver<T>);

#[verifier::external_type_specification]
#[verifier::external_body]
#[verifier::reject_recursive_types(T)]
pub struct ExMutex<T: ?Sized>(Mutex<T>);

#[verifier::external_type_specification]
#[verifier::external_body]
#[verifier::reject_recursive_types(T)]
pub struct ExMutexGuard<'a, T: ?Sized + 'a>(MutexGuard<'a, T>);

/// Relies on crossbeam_channel::unbounded: returns the two endpoints
/// of a fresh channel of unbounded capacity.
#[verifier::external_body]
pub(crate) fn channel_pair<T>() -> (Sender<T>, Receiver<T>) {
    crossbeam_channel::unbounded()
}

/// Relies on crossbeam_channel::Sender::clone: returns another
/// sending endpoint of the same channel.
#[verifier::external_body]
pub(crate) fn clone_sender<T>(s: &Sender<T>) -> Sender<T> {
    s.clone()
}

/// Relies on crossbeam_channel::Sender::send on an unbounded channel:
/// it enqueues the value and returns `Ok` unless every receiving
/// endpoint of the channel has been dropped, and it never blocks.
/// Whether it succeeds depends on the liveness of the paired
/// receiver, so nothing is promised of the outcome.
#[verifier::external_body]
pub(crate) fn send_value<T>(s: &Sender<T>, value: T) -> bool {
    s.send(value).is_ok()
}

/// Relies on crossbeam_channel::Receiver::recv: it blocks until a
/// value is available and returns it, or returns an error once the
/// channel is empty and every sending endpoint has been dropped.
#[verifier::external_body]
pub(crate) fn recv_value<T>(r: &Receiver<T>) -> Option<T> {
    match r.recv() {
        Ok(v) => Some(v),
        Err(_) => None,
    }
}

/// Relies on crossbeam_channel::Receiver::try_recv: it returns a
/// pending value without blocking, or an error when the channel is
/// currently empty or closed.
#[verifier::external_body]
pub(crate) fn try_recv_value<T>(r: &Receiver<T>) -> Option<T> {
    match r.try_recv() {
        Ok(v) => Some(v),
        Err(_) => None,
    }
}

/// Relies on std::sync::Mutex::new: wraps the value in a fresh,
/// unlocked mutex.
#[verifier::external_body]
pub(crate) fn new_mutex<T>(value: T) -> Mutex<T> {
    Mutex::new(value)
}

/// Relies on std::sync::Mutex::lock: it blocks until the lock is
/// acquired and returns a guard that releases it when dropped, or an
/// error when another holder panicked while holding the lock. `None`
/// here is that poisoned case.
#[verifier::external_body]
pub(crate) fn lock_guard<'a, T>(m: &'a Mutex<T>) -> Option<MutexGuard<'a, T>> {
    match m.lock() {
        Ok(g) => Some(g),
        Err(_) => None,
    }
}

/// Relies on std::sync::MutexGuard's `Deref` impl: it borrows the
/// value the locked mutex protects.
#[verifier::external_body]
pub(crate) fn guard_borrow<'a, 'b, T>(g: &'b MutexGuard<'a, T>) -> &'b T {
    &**g
}

/// Relies on std::vec::Vec::push, reached through
/// std::sync::MutexGuard's `DerefMut` impl: it appends the item to
/// the vector the locked mutex protects.
#[verifier::external_body]
pub(crate) fn guard_push<'a, T>(g: &mut MutexGuard<'a, Vec<T>>, item: T) {
    g.push(item);
}

} // verus!
