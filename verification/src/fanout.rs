//! Fan-out of one published value to a snapshot of the listener
//! list, and the exact aggregation of per-listener outcomes into the
//! result of a `broadcast` call.

use vstd::prelude::*;

use crate::chan::send_value;
use crate::errors::BroadcastError;
use crossbeam_channel::Sender;

verus! {

/// True when the elements of `s` grow strictly from left to right.
pub open spec fn strictly_increasing(s: Seq<usize>) -> bool {
    forall|a: int, b: int| 0 <= a < b < s.len() ==> s[a] < s[b]
}

/// True when `failed` is the increasing sequence of exactly those
/// indices at which `outcomes` records a failure.
pub open spec fn names_exactly_the_failures(failed: Seq<usize>, outcomes: Seq<bool>) -> bool {
    &&& strictly_increasing(failed)
    &&& forall|k: int|
        0 <= k < failed.len() ==> failed[k] < outcomes.len() && !outcomes[failed[k] as int]
    &&& forall|j: int| 0 <= j < outcomes.len() && !outcomes[j] ==> failed.contains(j as usize)
}

/// Enqueues one clone of `value` to every listener in the snapshot,
/// in list order, continuing past failed deliveries; outcome `i`
/// records whether delivery to listener `i` succeeded.
pub fn send_to_all<T: Clone>(listeners: &Vec<Sender<T>>, value: &T) -> (outcomes: Vec<bool>)
    ensures
        outcomes@.len() == listeners@.len(),
{
    let mut outcomes: Vec<bool> = Vec::new();
    let mut i: usize = 0;
    while i < listeners.len()
        invariant
            i <= listeners@.len(),
            outcomes@.len() == i,
        decreases listeners@.len() - i,
    {
        let delivered = send_value(&listeners[i], value.clone());
        outcomes.push(delivered);
        i = i + 1;
    }
    outcomes
}

/// Extracts from the delivery outcomes the indices of exactly the
/// listeners whose delivery failed, in increasing order.
pub fn failed_from_outcomes(outcomes: &Vec<bool>) -> (failed: Vec<usize>)
    ensures
        names_exactly_the_failures(failed@, outcomes@),
{
    let mut failed: Vec<usize> = Vec::new();
    let mut i: usize = 0;
    while i < outcomes.len()
        invariant
            i <= outcomes@.len(),
            strictly_increasing(failed@),
            forall|k: int|
                0 <= k < failed@.len() ==> failed@[k] < i && !outcomes@[failed@[k] as int],
            forall|j: int| 0 <= j < i && !outcomes@[j] ==> failed@.contains(j as usize),
        decreases outcomes@.len() - i,
    {
        if !outcomes[i] {
            let ghost before = failed@;
            failed.push(i);
            proof {
                assert forall|j: int|
                    0 <= j < i + 1 && !outcomes@[j] implies failed@.contains(j as usize) by {
                    if j == i {
                        assert(failed@[failed@.len() - 1] == i as usize);
                    } else {
                        let idx = choose|idx: int|
                            0 <= idx < before.len() && before[idx] == j as usize;
                        assert(failed@[idx] == j as usize);
                    }
                }
            }
        }
        i = i + 1;
    }
    failed
}

/// Aggregates the failed-listener indices into the result of one
/// broadcast: success when every delivery succeeded, otherwise one
/// `DeliveryFailed` error naming exactly the failing listeners.
pub fn delivery_outcome(failed: Vec<usize>) -> (r: Result<(), BroadcastError>)
    ensures
        failed@.len() == 0 <==> r is Ok,
        failed@.len() > 0 ==> (r matches Err(BroadcastError::DeliveryFailed(ids)) && ids@
            == failed@),
{
    if failed.len() == 0 {
        Ok(())
    } else {
        Err(BroadcastError::DeliveryFailed(failed))
    }
}

} // verus!
