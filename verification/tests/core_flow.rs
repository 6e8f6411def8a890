use sync_core::cache::SharedCache;
use sync_core::channel::{Channel, ReceiveOutcome, SendOutcome};
use sync_core::errors::{check_status, FetchError};
use sync_core::poller::{CachePoller, ChannelPoller, CycleReport, FetchOutcome};
use sync_core::records::{Post, User};

fn user(id: i32, name: &str) -> User {
    User { id, name: String::from(name) }
}

fn post(user_id: i32, id: i32, title: &str, body: &str) -> Post {
    Post { user_id, id, title: String::from(title), body: String::from(body) }
}

#[test]
fn cache_starts_with_no_data() {
    let cache = SharedCache::new();
    assert!(cache.read().is_none());
}

#[test]
fn cache_empty_snapshot_is_distinct_from_no_data() {
    let mut cache = SharedCache::new();
    cache.replace(Vec::new());
    assert_eq!(cache.read(), Some(&Vec::new()));
}

#[test]
fn cache_read_equals_one_whole_replace() {
    // One writer alternates between two distinguishable full-size snapshots;
    // every read equals one of them in full, never a mixture.
    let a = vec![user(1, "Alice"), user(2, "Anna")];
    let b = vec![user(3, "Bob"), user(4, "Bill")];
    let mut cache = SharedCache::new();
    for round in 0..6 {
        if round % 2 == 0 {
            cache.replace(a.clone());
        } else {
            cache.replace(b.clone());
        }
        let seen = cache.read().unwrap();
        assert!(seen == &a || seen == &b);
    }
}

#[test]
fn cache_read_returns_most_recent_replace() {
    let mut cache = SharedCache::new();
    for k in 1..=5 {
        cache.replace(vec![user(k, "latest")]);
        assert_eq!(cache.read(), Some(&vec![user(k, "latest")]));
    }
}

#[test]
fn channel_delivers_in_fifo_order() {
    let b1 = vec![post(1, 1, "first", "a")];
    let b2 = vec![post(1, 2, "second", "bb")];
    let b3 = vec![post(1, 3, "third", "ccc")];
    let mut ch = Channel::new(16);
    assert_eq!(ch.send(b1.clone()), SendOutcome::Delivered);
    assert_eq!(ch.send(b2.clone()), SendOutcome::Delivered);
    assert_eq!(ch.send(b3.clone()), SendOutcome::Delivered);
    assert_eq!(ch.try_receive(), ReceiveOutcome::Received(b1));
    assert_eq!(ch.try_receive(), ReceiveOutcome::Received(b2));
    assert_eq!(ch.try_receive(), ReceiveOutcome::Received(b3));
    assert_eq!(ch.try_receive(), ReceiveOutcome::Empty);
}

#[test]
fn channel_interleaved_sends_and_receives_keep_order() {
    let b1 = vec![post(1, 1, "one", "x")];
    let b2 = vec![post(1, 2, "two", "y")];
    let b3 = vec![post(1, 3, "three", "z")];
    let mut ch = Channel::new(2);
    assert_eq!(ch.send(b1.clone()), SendOutcome::Delivered);
    assert_eq!(ch.send(b2.clone()), SendOutcome::Delivered);
    assert_eq!(ch.try_receive(), ReceiveOutcome::Received(b1));
    assert_eq!(ch.send(b3.clone()), SendOutcome::Delivered);
    assert_eq!(ch.try_receive(), ReceiveOutcome::Received(b2));
    assert_eq!(ch.try_receive(), ReceiveOutcome::Received(b3));
    assert_eq!(ch.try_receive(), ReceiveOutcome::Empty);
}

#[test]
fn channel_full_is_signalled_and_drops_nothing() {
    // Capacity 2 and no consumer draining: the third send reports Full and
    // the two enqueued batches are untouched.
    let b1 = vec![post(1, 1, "one", "x")];
    let b2 = vec![post(1, 2, "two", "y")];
    let b3 = vec![post(1, 3, "three", "z")];
    let mut ch = Channel::new(2);
    assert_eq!(ch.send(b1.clone()), SendOutcome::Delivered);
    assert_eq!(ch.send(b2.clone()), SendOutcome::Delivered);
    assert_eq!(ch.send(b3), SendOutcome::Full);
    assert_eq!(ch.try_receive(), ReceiveOutcome::Received(b1));
    assert_eq!(ch.try_receive(), ReceiveOutcome::Received(b2));
    assert_eq!(ch.try_receive(), ReceiveOutcome::Empty);
}

#[test]
fn channel_disconnect_fails_next_send_but_keeps_pending() {
    let b1 = vec![post(1, 1, "kept", "x")];
    let mut ch = Channel::new(4);
    assert_eq!(ch.send(b1.clone()), SendOutcome::Delivered);
    ch.disconnect();
    assert_eq!(ch.send(vec![post(1, 2, "lost", "y")]), SendOutcome::Disconnected);
    assert_eq!(ch.try_receive(), ReceiveOutcome::Received(b1));
    assert_eq!(ch.try_receive(), ReceiveOutcome::Disconnected);
}

#[test]
fn cache_poller_failure_is_absorbed_and_cache_untouched() {
    let mut cache = SharedCache::new();
    let mut poller = CachePoller::new(5);
    let report = poller.cycle(&mut cache, FetchOutcome::Failure(FetchError::Status(503)));
    assert_eq!(report, CycleReport::Failed { error: FetchError::Status(503) });
    assert!(cache.read().is_none());
    assert_eq!(poller.error_count(), 1);
}

#[test]
fn cache_poller_last_success_prevails() {
    // Fetch fails on cycles 1 and 3 and succeeds on cycles 2 and 4: the cache
    // holds exactly cycle 4's payload at the end, cycle 2's transiently in
    // between, and never anything partial.
    let mut cache = SharedCache::new();
    let mut poller = CachePoller::new(5);
    let two = vec![user(2, "second")];
    let four = vec![user(4, "fourth")];

    let r1 = poller.cycle(
        &mut cache,
        FetchOutcome::Failure(FetchError::Transport(String::from("refused"))),
    );
    assert!(matches!(r1, CycleReport::Failed { .. }));
    assert!(cache.read().is_none());

    let r2 = poller.cycle(&mut cache, FetchOutcome::Success(two.clone()));
    assert_eq!(r2, CycleReport::Delivered { count: 1 });
    assert_eq!(cache.read(), Some(&two));

    let r3 = poller.cycle(
        &mut cache,
        FetchOutcome::Failure(FetchError::Decode(String::from("bad shape"))),
    );
    assert!(matches!(r3, CycleReport::Failed { .. }));
    assert_eq!(cache.read(), Some(&two));

    let r4 = poller.cycle(&mut cache, FetchOutcome::Success(four.clone()));
    assert_eq!(r4, CycleReport::Delivered { count: 1 });
    assert_eq!(cache.read(), Some(&four));
    assert_eq!(poller.error_count(), 2);
}

#[test]
fn end_to_end_alice_then_failure_then_bob() {
    // Stub fetch: {id:1,name:"Alice"} on call 1, a failure on call 2,
    // {id:1,name:"Bob"} on call 3.  After the three cycles the cache reads
    // Bob and exactly one failure was reported.
    let mut cache = SharedCache::new();
    let mut poller = CachePoller::new(1);
    let mut failure_reports = 0;
    let outcomes = vec![
        FetchOutcome::Success(vec![user(1, "Alice")]),
        FetchOutcome::Failure(FetchError::Transport(String::from("timed out"))),
        FetchOutcome::Success(vec![user(1, "Bob")]),
    ];
    for outcome in outcomes {
        if let CycleReport::Failed { .. } = poller.cycle(&mut cache, outcome) {
            failure_reports += 1;
        }
    }
    assert_eq!(cache.read(), Some(&vec![user(1, "Bob")]));
    assert_eq!(failure_reports, 1);
}

#[test]
fn channel_poller_delivers_and_absorbs_failures() {
    let mut ch = Channel::new(8);
    let mut poller = ChannelPoller::new(1, 8);
    let batch = vec![post(1, 1, "a", "x"), post(1, 2, "b", "yy")];
    let r1 = poller.cycle(&mut ch, FetchOutcome::Success(batch.clone()));
    assert_eq!(r1, CycleReport::Delivered { count: 2 });
    let r2 = poller.cycle(&mut ch, FetchOutcome::Failure(FetchError::Status(500)));
    assert_eq!(r2, CycleReport::Failed { error: FetchError::Status(500) });
    assert_eq!(poller.error_count(), 1);
    assert!(!poller.stopped());
    assert_eq!(ch.try_receive(), ReceiveOutcome::Received(batch));
    assert_eq!(ch.try_receive(), ReceiveOutcome::Empty);
}

#[test]
fn channel_poller_reports_full_and_carries_on() {
    let mut ch = Channel::new(1);
    let mut poller = ChannelPoller::new(1, 8);
    let b1 = vec![post(1, 1, "a", "x")];
    assert_eq!(poller.cycle(&mut ch, FetchOutcome::Success(b1.clone())), CycleReport::Delivered {
        count: 1,
    });
    assert_eq!(
        poller.cycle(&mut ch, FetchOutcome::Success(vec![post(1, 2, "b", "y")])),
        CycleReport::SendFull
    );
    assert!(!poller.stopped());
    assert_eq!(ch.try_receive(), ReceiveOutcome::Received(b1));
}

#[test]
fn channel_poller_stops_on_disconnect_and_other_poller_is_unaffected() {
    let mut ch = Channel::new(8);
    let mut posts_poller = ChannelPoller::new(1, 8);
    let mut cache = SharedCache::new();
    let mut users_poller = CachePoller::new(5);

    // The consumer end goes away; the next send reports it, the sending
    // poller stops for good, and later cycles do nothing.
    ch.disconnect();
    let r1 = posts_poller.cycle(&mut ch, FetchOutcome::Success(vec![post(1, 1, "a", "x")]));
    assert_eq!(r1, CycleReport::SendDisconnected);
    assert!(posts_poller.stopped());
    let r2 = posts_poller.cycle(&mut ch, FetchOutcome::Success(vec![post(1, 2, "b", "y")]));
    assert_eq!(r2, CycleReport::Stopped);

    // The cache poller runs on, unaffected.
    let snapshot = vec![user(1, "Alice")];
    let r3 = users_poller.cycle(&mut cache, FetchOutcome::Success(snapshot.clone()));
    assert_eq!(r3, CycleReport::Delivered { count: 1 });
    assert_eq!(cache.read(), Some(&snapshot));
    assert_eq!(users_poller.error_count(), 0);
}

#[test]
fn check_status_accepts_success_codes_only() {
    assert_eq!(check_status(200), None);
    assert_eq!(check_status(204), None);
    assert_eq!(check_status(299), None);
    assert_eq!(check_status(199), Some(FetchError::Status(199)));
    assert_eq!(check_status(301), Some(FetchError::Status(301)));
    assert_eq!(check_status(404), Some(FetchError::Status(404)));
    assert_eq!(check_status(500), Some(FetchError::Status(500)));
}

#[test]
fn error_kind_labels() {
    assert_eq!(FetchError::Transport(String::from("x")).kind_label(), "transport error");
    assert_eq!(FetchError::Status(500).kind_label(), "status error");
    assert_eq!(FetchError::Decode(String::from("x")).kind_label(), "decode error");
}
