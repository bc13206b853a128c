//! Abstract delivery model of the broadcaster, and the laws proved
//! over it.
//!
//! The state is one queue per absorbed listener: element `i` of the
//! model is the sequence of values delivered, in order, to the `i`-th
//! listener in absorption order. Absorbing a registration appends a
//! fresh empty queue; publishing a value appends one copy of it to
//! every queue present. Unbounded channels make delivery a pure
//! append, so any interleaving of registrations and broadcasts is a
//! sequence of these two steps.

use vstd::prelude::*;

verus! {

/// One observable event in the life of a broadcaster: a listener's
/// registration being absorbed into the shared list, or a value
/// being published to every listener absorbed so far.
pub enum ListenerEvent<V> {
    Join,
    Publish(V),
}

/// Absorbing one registration: a fresh listener with an empty queue
/// joins at the end, in insertion order.
pub open spec fn join_step<V>(queues: Seq<Seq<V>>) -> Seq<Seq<V>> {
    queues.push(Seq::empty())
}

/// Publishing one value: every queue present receives one copy of it,
/// appended after everything its listener already observed.
pub open spec fn publish_step<V>(queues: Seq<Seq<V>>, v: V) -> Seq<Seq<V>> {
    Seq::new(queues.len(), |i: int| queues[i].push(v))
}

/// One step of the broadcaster under one event.
pub open spec fn event_step<V>(queues: Seq<Seq<V>>, e: ListenerEvent<V>) -> Seq<Seq<V>> {
    match e {
        ListenerEvent::Join => join_step(queues),
        ListenerEvent::Publish(v) => publish_step(queues, v),
    }
}

/// The state reached from `queues` after an arbitrary interleaving of
/// registrations and publications.
pub open spec fn run_from<V>(queues: Seq<Seq<V>>, events: Seq<ListenerEvent<V>>) -> Seq<Seq<V>>
    decreases events.len(),
{
    if events.len() == 0 {
        queues
    } else {
        event_step(run_from(queues, events.drop_last()), events.last())
    }
}

/// The values published by `events`, in publication order.
pub open spec fn published_values<V>(events: Seq<ListenerEvent<V>>) -> Seq<V>
    decreases events.len(),
{
    if events.len() == 0 {
        Seq::empty()
    } else {
        match events.last() {
            ListenerEvent::Join => published_values(events.drop_last()),
            ListenerEvent::Publish(v) => published_values(events.drop_last()).push(v),
        }
    }
}

/// Number of values equal to `v` that `q` holds.
pub open spec fn occurrences<V>(q: Seq<V>, v: V) -> nat {
    q.filter(|x: V| x == v).len()
}

/// Law: publishing `v` delivers to every absorbed listener a value
/// equal to `v` exactly once — its queue grows by exactly one
/// element, equal to `v`, appended after everything it already
/// observed (per-listener FIFO) — and delivers to nobody else.
pub proof fn lemma_publish_delivers_to_every_listener_once<V>(queues: Seq<Seq<V>>, v: V)
    ensures
        publish_step(queues, v).len() == queues.len(),
        forall|i: int| 0 <= i < queues.len() ==> publish_step(queues, v)[i] == queues[i].push(v),
        forall|i: int|
            0 <= i < queues.len() ==> publish_step(queues, v)[i].len() == queues[i].len() + 1,
        forall|i: int| 0 <= i < queues.len() ==> publish_step(queues, v)[i].last() == v,
        forall|i: int|
            #![trigger publish_step(queues, v)[i]]
            0 <= i < queues.len() ==> publish_step(queues, v)[i].take(queues[i].len() as int)
                == queues[i],
        forall|i: int|
            #![trigger publish_step(queues, v)[i]]
            0 <= i < queues.len() ==> occurrences(publish_step(queues, v)[i], v) == occurrences(
                queues[i],
                v,
            ) + 1,
{
    assert forall|i: int|
        0 <= i < queues.len() implies publish_step(queues, v)[i].take(queues[i].len() as int)
        == queues[i] by {
        assert(publish_step(queues, v)[i] == queues[i].push(v));
        assert(queues[i].push(v).take(queues[i].len() as int) =~= queues[i]);
    }
    assert forall|i: int|
        0 <= i < queues.len() implies occurrences(publish_step(queues, v)[i], v) == occurrences(
        queues[i],
        v,
    ) + 1 by {
        let q = queues[i];
        let pred = |x: V| x == v;
        assert(publish_step(queues, v)[i] == q.push(v));
        assert(q.push(v).drop_last() =~= q);
        assert(q.push(v).filter(pred) == q.filter(pred).push(v)) by {
            reveal_with_fuel(Seq::filter, 2);
        }
    }
}

/// Law: absorbing one registration adds exactly one fresh listener,
/// with an empty queue, after all others, and leaves every existing
/// listener's queue untouched — registrations are independent, and a
/// listener absorbed after a publication holds nothing of it.
pub proof fn lemma_join_adds_one_fresh_listener<V>(queues: Seq<Seq<V>>)
    ensures
        join_step(queues).len() == queues.len() + 1,
        forall|i: int| 0 <= i < queues.len() ==> join_step(queues)[i] == queues[i],
        join_step(queues).last() == Seq::<V>::empty(),
{
}

/// A run never loses a listener: the list is growth-only.
pub proof fn lemma_run_from_grows<V>(queues: Seq<Seq<V>>, events: Seq<ListenerEvent<V>>)
    ensures
        run_from(queues, events).len() >= queues.len(),
    decreases events.len(),
{
    if events.len() > 0 {
        lemma_run_from_grows(queues, events.drop_last());
    }
}

/// Law: a listener whose registration is absorbed at some point
/// receives exactly the values published strictly after that point,
/// in publication order — under any later interleaving of
/// registrations and publications, and whatever was delivered
/// before it joined.
pub proof fn lemma_listener_receives_exactly_later_publications<V>(
    queues: Seq<Seq<V>>,
    later: Seq<ListenerEvent<V>>,
)
    ensures
        run_from(join_step(queues), later).len() > queues.len(),
        run_from(join_step(queues), later)[queues.len() as int] == published_values(later),
    decreases later.len(),
{
    if later.len() == 0 {
        assert(run_from(join_step(queues), later) == join_step(queues));
    } else {
        lemma_listener_receives_exactly_later_publications(queues, later.drop_last());
        let inner = run_from(join_step(queues), later.drop_last());
        let k = queues.len() as int;
        match later.last() {
            ListenerEvent::Join => {
                assert(join_step(inner)[k] == inner[k]);
            },
            ListenerEvent::Publish(v) => {
                assert(publish_step(inner, v)[k] == inner[k].push(v));
            },
        }
    }
}

/// Law: one publication reaches exactly the listener set absorbed
/// strictly before it — the listener count is unchanged by it, and a
/// listener joining afterwards starts empty, so under any
/// interleaving the value goes to the absorbed set and nowhere else.
pub proof fn lemma_publish_reaches_no_later_listener<V>(queues: Seq<Seq<V>>, v: V)
    ensures
        publish_step(queues, v).len() == queues.len(),
        join_step(publish_step(queues, v)).last() == Seq::<V>::empty(),
{
}

} // verus!
