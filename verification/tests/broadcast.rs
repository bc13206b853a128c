use thread_broadcaster::BroadcastError;
use thread_broadcaster::BroadcastListener;
use thread_broadcaster::Broadcaster;
use thread_broadcaster::RegistrationError;
use thread_broadcaster::delivery_outcome;
use thread_broadcaster::failed_from_outcomes;

#[derive(Clone)]
pub struct Test {
    pub id: String,
}

#[test]
fn single_listener() {
    let (b, s, worker) = Broadcaster::<Test>::new();
    let listener = BroadcastListener::register_broadcast_listener(s).unwrap();
    assert_eq!(worker.absorb_pending().unwrap(), 1);
    let obj = Test {
        id: "test broadcast".to_string(),
    };
    b.broadcast(obj).unwrap();
    assert_eq!(listener.channel.recv().unwrap().id, "test broadcast")
}

#[test]
fn broadcast_two_listener() {
    let (b, s, worker) = Broadcaster::<Test>::new();
    let ls2 = s.clone();
    let listener = BroadcastListener::register_broadcast_listener(s).unwrap();
    let listener2 = BroadcastListener::register_broadcast_listener(ls2).unwrap();
    assert_eq!(worker.absorb_pending().unwrap(), 2);
    let comparator = vec!["test broadcast".to_string(), "test broadcast".to_string()];
    let obj = Test {
        id: "test broadcast".to_string(),
    };
    b.broadcast(obj).unwrap();
    let results = vec![
        listener.channel.recv().unwrap().id,
        listener2.channel.recv().unwrap().id,
    ];
    assert_eq!(comparator, results);
}

#[test]
fn one_listener_receives_hello() {
    let (b, s, worker) = Broadcaster::<String>::new();
    let listener = BroadcastListener::register_broadcast_listener(s).unwrap();
    assert_eq!(worker.absorb_pending().unwrap(), 1);
    b.broadcast("hello".to_string()).unwrap();
    assert_eq!(listener.channel.recv().unwrap(), "hello");
}

#[test]
fn both_listeners_receive_x() {
    let (b, s, worker) = Broadcaster::<String>::new();
    let s2 = s.clone();
    let l1 = BroadcastListener::register_broadcast_listener(s).unwrap();
    let l2 = BroadcastListener::register_broadcast_listener(s2).unwrap();
    assert_eq!(worker.absorb_pending().unwrap(), 2);
    b.broadcast("x".to_string()).unwrap();
    assert_eq!(l1.channel.recv().unwrap(), "x");
    assert_eq!(l2.channel.recv().unwrap(), "x");
}

#[test]
fn zero_listeners_is_a_successful_noop() {
    let (b, s, worker) = Broadcaster::<String>::new();
    assert_eq!(worker.absorb_pending().unwrap(), 0);
    assert_eq!(b.broadcast("first".to_string()), Ok(()));
    let listener = BroadcastListener::register_broadcast_listener(s).unwrap();
    assert_eq!(worker.absorb_pending().unwrap(), 1);
    b.broadcast("second".to_string()).unwrap();
    assert_eq!(listener.channel.recv().unwrap(), "second");
    assert!(listener.channel.try_recv().is_err());
}

#[test]
fn dead_listener_is_named_and_live_one_still_receives() {
    let (b, s, worker) = Broadcaster::<String>::new();
    let s2 = s.clone();
    let dead = BroadcastListener::register_broadcast_listener(s).unwrap();
    let live = BroadcastListener::register_broadcast_listener(s2).unwrap();
    assert_eq!(worker.absorb_pending().unwrap(), 2);
    drop(dead);
    let r = b.broadcast("y".to_string());
    assert_eq!(r, Err(BroadcastError::DeliveryFailed(vec![0])));
    assert_eq!(live.channel.recv().unwrap(), "y");
}

#[test]
fn registration_fails_after_teardown() {
    let (_b, s, worker) = Broadcaster::<String>::new();
    drop(worker);
    let r = BroadcastListener::register_broadcast_listener(s);
    assert!(matches!(r, Err(RegistrationError::RegistrationFailed)));
}

#[test]
fn broadcaster_handle_comes_from_consumed_worker() {
    let (_b, s, worker) = Broadcaster::<String>::new();
    drop(s);
    let handle = worker.broadcaster();
    // Handing the worker away tears the registration channel down.
    let r = BroadcastListener::register_broadcast_listener(handle);
    assert!(matches!(r, Err(RegistrationError::RegistrationFailed)));
}

#[test]
fn dropping_every_handle_ends_the_absorbing_loop() {
    let (b, s, worker) = Broadcaster::<String>::new();
    let listener = BroadcastListener::register_broadcast_listener(s).unwrap();
    // Every registration handle is gone, so the loop absorbs the one
    // pending request and then returns instead of blocking.
    assert_eq!(worker.registration_loop(), Ok(()));
    b.broadcast("z".to_string()).unwrap();
    assert_eq!(listener.channel.recv().unwrap(), "z");
}

#[test]
fn per_listener_order_is_fifo() {
    let (b, s, worker) = Broadcaster::<String>::new();
    let listener = BroadcastListener::register_broadcast_listener(s).unwrap();
    assert_eq!(worker.absorb_pending().unwrap(), 1);
    b.broadcast("a".to_string()).unwrap();
    b.broadcast("b".to_string()).unwrap();
    assert_eq!(listener.channel.recv().unwrap(), "a");
    assert_eq!(listener.channel.recv().unwrap(), "b");
    assert!(listener.channel.try_recv().is_err());
}

#[test]
fn listener_receives_only_broadcasts_after_absorption() {
    let (b, s, worker) = Broadcaster::<String>::new();
    let s2 = s.clone();
    let early = BroadcastListener::register_broadcast_listener(s).unwrap();
    assert_eq!(worker.absorb_pending().unwrap(), 1);
    b.broadcast("a".to_string()).unwrap();
    let late = BroadcastListener::register_broadcast_listener(s2).unwrap();
    assert_eq!(worker.absorb_pending().unwrap(), 1);
    b.broadcast("b".to_string()).unwrap();
    assert_eq!(early.channel.recv().unwrap(), "a");
    assert_eq!(early.channel.recv().unwrap(), "b");
    assert!(early.channel.try_recv().is_err());
    assert_eq!(late.channel.recv().unwrap(), "b");
    assert!(late.channel.try_recv().is_err());
}

#[test]
fn delivered_clones_are_independent() {
    let (b, s, worker) = Broadcaster::<String>::new();
    let s2 = s.clone();
    let l1 = BroadcastListener::register_broadcast_listener(s).unwrap();
    let l2 = BroadcastListener::register_broadcast_listener(s2).unwrap();
    assert_eq!(worker.absorb_pending().unwrap(), 2);
    b.broadcast("orig".to_string()).unwrap();
    let mut got1 = l1.channel.recv().unwrap();
    let got2 = l2.channel.recv().unwrap();
    got1.push_str(" mutated");
    assert_eq!(got1, "orig mutated");
    assert_eq!(got2, "orig");
}

#[test]
fn delivery_outcome_exact_values() {
    assert_eq!(delivery_outcome(Vec::new()), Ok(()));
    assert_eq!(
        delivery_outcome(vec![0, 2]),
        Err(BroadcastError::DeliveryFailed(vec![0, 2]))
    );
}

#[test]
fn failed_from_outcomes_exact_values() {
    assert_eq!(failed_from_outcomes(&Vec::new()), Vec::<usize>::new());
    assert_eq!(failed_from_outcomes(&vec![true, true]), Vec::<usize>::new());
    assert_eq!(failed_from_outcomes(&vec![true, false, false]), vec![1, 2]);
    assert_eq!(failed_from_outcomes(&vec![false]), vec![0]);
}
