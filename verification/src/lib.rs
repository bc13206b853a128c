//! A single-producer, dynamically-joining multi-consumer broadcast
//! primitive: one control point publishes values that reach every
//! currently registered listener, not merely the first to consume.
//!
//! Listeners join at any time by sending the outbound endpoint of a
//! fresh unbounded channel to an absorbing loop, which appends it to
//! a shared, lock-protected, growth-only listener list. `broadcast`
//! locks that list and enqueues one clone of the value to every
//! listed endpoint, continuing past dead listeners and aggregating
//! their indices into a single error.
//!
//! The abstract delivery laws — every absorbed listener receives
//! every later publication exactly once, in order, and no earlier one
//! — are stated and proved over the queue model in [`model`].

use vstd::prelude::*;

use crossbeam_channel::Receiver;
use crossbeam_channel::Sender;
use std::sync::Arc;
use std::sync::Mutex;

mod chan;
mod errors;
mod fanout;
pub mod model;

pub use errors::BroadcastError;
pub use errors::RegistrationError;
pub use fanout::delivery_outcome;
pub use fanout::failed_from_outcomes;
pub use fanout::names_exactly_the_failures;
pub use fanout::send_to_all;
pub use fanout::strictly_increasing;

use chan::channel_pair;
use chan::clone_sender;
use chan::guard_borrow;
use chan::guard_push;
use chan::lock_guard;
use chan::new_mutex;
use chan::recv_value;
use chan::send_value;
use chan::try_recv_value;

verus! {

/// True when the publishing controller and the absorbing worker hold
/// one and the same shared listener list, so that what the worker
/// absorbs is what the controller fans out to.
pub closed spec fn shares_listener_list<T>(
    controller: Controller<T>,
    worker: Broadcaster<T>,
) -> bool {
    controller.data == worker.data
}

/// Consumer-facing handle of one registered listener: the receive
/// endpoint of its own unbounded channel.
#[verifier::reject_recursive_types(T)]
pub struct BroadcastListener<T> {
    pub channel: Receiver<T>,
}

impl<T> BroadcastListener<T> {
    /// Creates a new listener's channel pair, forwards its send side
    /// over `broadcaster` to the absorbing loop, and returns the
    /// receive side at once — delivery begins only after the request
    /// is absorbed and a later broadcast occurs.
    ///
    /// Fails exactly when the registration channel is already closed
    /// because the broadcaster was torn down.
    pub fn register_broadcast_listener(broadcaster: Sender<Sender<T>>) -> (r: Result<
        BroadcastListener<T>,
        RegistrationError,
    >)
        ensures
            r matches Err(e) ==> e == RegistrationError::RegistrationFailed,
    {
        let (send, receive) = channel_pair::<T>();
        if send_value(&broadcaster, send) {
            Ok(BroadcastListener { channel: receive })
        } else {
            Err(RegistrationError::RegistrationFailed)
        }
    }
}

/// Publishing handle: shares the listener list with the absorbing
/// loop and fans each published value out to it.
#[verifier::reject_recursive_types(T)]
pub struct Controller<T> {
    data: Arc<Mutex<Vec<Sender<T>>>>,
}

impl<T: Clone> Controller<T> {
    /// Publishes one value to every listener registered at the
    /// moment the shared list is locked, holding the lock for the
    /// whole fan-out so no listener is added mid-delivery.
    ///
    /// One clone of `data` is enqueued per listener, dead listeners
    /// are skipped rather than aborting the call, and the result
    /// aggregates the failures: `Ok` when every delivery succeeded
    /// (in particular with zero listeners), otherwise the increasing
    /// registration-order indices of exactly the listeners whose
    /// channel was closed. A corrupted list lock is fatal for the
    /// call and mutates nothing.
    pub fn broadcast(&self, data: T) -> (r: Result<(), BroadcastError>)
        ensures
            match r {
                Ok(_) => true,
                Err(e) => match e {
                    BroadcastError::LockCorrupted => true,
                    BroadcastError::DeliveryFailed(ids) => ids@.len() > 0 && strictly_increasing(
                        ids@,
                    ),
                },
            },
    {
        match lock_guard(&*self.data) {
            None => Err(BroadcastError::LockCorrupted),
            Some(listeners) => {
                let outcomes = fanout::send_to_all(guard_borrow(&listeners), &data);
                let failed = fanout::failed_from_outcomes(&outcomes);
                fanout::delivery_outcome(failed)
            },
        }
    }
}

/// The absorbing worker: owns the receive side of the registration
/// channel and is the sole authorized mutator of the shared listener
/// list.
#[verifier::reject_recursive_types(T)]
pub struct Broadcaster<T> {
    sender: Sender<Sender<T>>,
    reciver: Receiver<Sender<T>>,
    data: Arc<Mutex<Vec<Sender<T>>>>,
}

impl<T> Broadcaster<T> {
    /// Wires the primitive together: allocates the empty shared
    /// listener list and the registration channel, and returns the
    /// publishing controller, a clonable registration handle, and
    /// the absorbing worker, the controller and the worker holding
    /// one and the same list. Never blocks.
    ///
    /// The worker is returned rather than detached: the embedding
    /// program runs [`Broadcaster::registration_loop`] on a thread of
    /// its own, or drives it step by step with
    /// [`Broadcaster::absorb_pending`].
    pub fn new() -> (r: (Controller<T>, Sender<Sender<T>>, Broadcaster<T>))
        ensures
            shares_listener_list(r.0, r.2),
    {
        let (send, receive) = channel_pair::<Sender<T>>();
        let data: Arc<Mutex<Vec<Sender<T>>>> = Arc::new(new_mutex(Vec::new()));
        let controller = Controller { data: data.clone() };
        let handle = clone_sender(&send);
        (controller, handle, Broadcaster { sender: send, reciver: receive, data })
    }

    /// Hands out one more registration handle, consuming the worker —
    /// and with it the registration channel's only receive side, so
    /// every registration sent through the returned handle fails with
    /// `RegistrationFailed`. The absorbing loop can no longer be run.
    pub fn broadcaster(self) -> Sender<Sender<T>> {
        clone_sender(&self.sender)
    }

    /// The absorbing loop: block-receives one registration request at
    /// a time and appends it to the shared listener list, until the
    /// registration channel closes because every handle was dropped —
    /// there is no external cancel, and closure ends the loop with
    /// success. A corrupted list lock is fatal, never bypassed: the
    /// loop stops and surfaces it.
    ///
    /// The worker's own handle is dropped on entry, so closure is
    /// governed by the handles given out to joining threads alone.
    /// Each pass appends to a growable array, which cannot take more
    /// than `usize::MAX` appends over its life, so the loop carries
    /// that bound explicitly; it is unreachable in practice.
    pub fn registration_loop(self) -> (r: Result<(), BroadcastError>)
        ensures
            r matches Err(e) ==> e is LockCorrupted,
    {
        let Broadcaster { sender, reciver, data } = self;
        {
            let _own_handle = sender;
        }
        let mut remaining: usize = usize::MAX;
        while remaining > 0
            decreases remaining,
        {
            match recv_value(&reciver) {
                None => {
                    return Ok(());
                },
                Some(listener) => {
                    match lock_guard(&*data) {
                        None => {
                            return Err(BroadcastError::LockCorrupted);
                        },
                        Some(mut guard) => {
                            guard_push(&mut guard, listener);
                        },
                    }
                },
            }
            remaining = remaining - 1;
        }
        Ok(())
    }

    /// Absorbs every registration request pending right now, without
    /// blocking, and reports how many were appended to the shared
    /// list (saturating). Fails exactly as the absorbing loop would:
    /// when the list lock is corrupted.
    pub fn absorb_pending(&self) -> (r: Result<usize, BroadcastError>)
        ensures
            r matches Err(e) ==> e is LockCorrupted,
    {
        let mut absorbed: usize = 0;
        let mut remaining: usize = usize::MAX;
        while remaining > 0
            decreases remaining,
        {
            match try_recv_value(&self.reciver) {
                None => {
                    return Ok(absorbed);
                },
                Some(listener) => {
                    match lock_guard(&*self.data) {
                        None => {
                            return Err(BroadcastError::LockCorrupted);
                        },
                        Some(mut guard) => {
                            guard_push(&mut guard, listener);
                        },
                    }
                    if absorbed < usize::MAX {
                        absorbed = absorbed + 1;
                    }
                },
            }
            remaining = remaining - 1;
        }
        Ok(absorbed)
    }
}

} // verus!
