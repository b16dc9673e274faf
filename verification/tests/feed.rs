use cpu_feed::broadcaster::Broadcaster;
use cpu_feed::broadcaster::RecvOutcome;
use cpu_feed::forwarder::Forwarder;
use cpu_feed::forwarder::ForwarderAction;
use cpu_feed::forwarder::ForwarderEvent;
use cpu_feed::sampler::tick;
use cpu_feed::snapshot::Snapshot;

fn snap(values: &[u32]) -> Snapshot {
    Snapshot::new(values.to_vec())
}

fn percents_to_loads(percents: &[f64]) -> Vec<u32> {
    percents.iter().map(|p| (p * 100.0) as u32).collect()
}

#[test]
fn publish_succeeds_with_zero_subscribers() {
    let mut b = Broadcaster::new(4);
    assert_eq!(b.subscriber_count(), 0);
    let receivers = b.publish(snap(&[1000, 2000]));
    assert_eq!(receivers, 0);
    assert_eq!(b.sequence_count(), 1);
    let receivers = b.publish(snap(&[1500, 2500]));
    assert_eq!(receivers, 0);
    assert_eq!(b.sequence_count(), 2);
}

#[test]
fn single_subscription_receives_in_order() {
    // A fake measurement facility hands back [10.0, 20.0] and then
    // [15.0, 25.0] percent.
    let mut b = Broadcaster::new(8);
    let mut sub = b.subscribe();
    assert!(tick(&mut b, Some(percents_to_loads(&[10.0, 20.0]))));
    assert!(tick(&mut b, Some(percents_to_loads(&[15.0, 25.0]))));
    match b.receive(&mut sub) {
        RecvOutcome::Received { seq, snapshot } => {
            assert_eq!(seq, 0);
            assert_eq!(snapshot.values(), vec![1000, 2000]);
        }
        _ => panic!("expected the first snapshot"),
    }
    match b.receive(&mut sub) {
        RecvOutcome::Received { seq, snapshot } => {
            assert_eq!(seq, 1);
            assert_eq!(snapshot.values(), vec![1500, 2500]);
        }
        _ => panic!("expected the second snapshot"),
    }
    assert!(matches!(b.receive(&mut sub), RecvOutcome::Pending));
}

#[test]
fn slow_subscription_sees_lag_then_oldest_retained() {
    // Ring capacity 2; five snapshots are published while the
    // subscription never reads.
    let mut b = Broadcaster::new(2);
    let mut sub = b.subscribe();
    for i in 0..5u32 {
        b.publish(snap(&[(i + 1) * 100]));
    }
    match b.receive(&mut sub) {
        RecvOutcome::Lagged { missed } => assert_eq!(missed, 3),
        _ => panic!("expected a lag report"),
    }
    match b.receive(&mut sub) {
        RecvOutcome::Received { seq, snapshot } => {
            assert_eq!(seq, 3);
            // The fourth published snapshot.
            assert_eq!(snapshot.values(), vec![400]);
        }
        _ => panic!("expected the fourth snapshot"),
    }
    match b.receive(&mut sub) {
        RecvOutcome::Received { seq, snapshot } => {
            assert_eq!(seq, 4);
            assert_eq!(snapshot.values(), vec![500]);
        }
        _ => panic!("expected the fifth snapshot"),
    }
    assert!(matches!(b.receive(&mut sub), RecvOutcome::Pending));
}

#[test]
fn observed_sequence_numbers_strictly_increase() {
    let mut b = Broadcaster::new(2);
    let mut sub = b.subscribe();
    let mut observed: Vec<u64> = Vec::new();
    let mut next: u32 = 0;
    let mut publish_n = |b: &mut Broadcaster, n: u32| {
        for _ in 0..n {
            b.publish(snap(&[next]));
            next += 1;
        }
    };
    publish_n(&mut b, 1);
    if let RecvOutcome::Received { seq, .. } = b.receive(&mut sub) {
        observed.push(seq);
    }
    publish_n(&mut b, 4); // overruns the ring: next receive lags
    loop {
        match b.receive(&mut sub) {
            RecvOutcome::Received { seq, .. } => observed.push(seq),
            RecvOutcome::Lagged { .. } => continue,
            RecvOutcome::Pending => break,
            RecvOutcome::Closed => break,
        }
    }
    publish_n(&mut b, 2);
    loop {
        match b.receive(&mut sub) {
            RecvOutcome::Received { seq, .. } => observed.push(seq),
            RecvOutcome::Lagged { .. } => continue,
            RecvOutcome::Pending => break,
            RecvOutcome::Closed => break,
        }
    }
    assert!(!observed.is_empty());
    for w in observed.windows(2) {
        assert!(w[0] < w[1], "sequence numbers must strictly increase");
    }
}

#[test]
fn publish_reaches_every_subscription() {
    let mut b = Broadcaster::new(4);
    let mut s1 = b.subscribe();
    let mut s2 = b.subscribe();
    b.publish(snap(&[100]));
    let mut s3 = b.subscribe(); // subscribed after: no backfill
    b.publish(snap(&[200]));
    let receivers = b.publish(snap(&[300]));
    assert_eq!(receivers, 3);
    // Every subscription now has something to read: none is pending.
    for (sub, first_seq) in [(&mut s1, 0), (&mut s2, 0), (&mut s3, 1)] {
        match b.receive(sub) {
            RecvOutcome::Received { seq, .. } => assert_eq!(seq, first_seq),
            _ => panic!("expected a snapshot right after a publish"),
        }
    }
}

#[test]
fn subscription_created_later_sees_only_later_snapshots() {
    let mut b = Broadcaster::new(4);
    b.publish(snap(&[100]));
    b.publish(snap(&[200]));
    let mut sub = b.subscribe();
    assert!(matches!(b.receive(&mut sub), RecvOutcome::Pending));
    b.publish(snap(&[300]));
    match b.receive(&mut sub) {
        RecvOutcome::Received { seq, snapshot } => {
            assert_eq!(seq, 2);
            assert_eq!(snapshot.values(), vec![300]);
        }
        _ => panic!("expected only the snapshot published after subscribing"),
    }
}

#[test]
fn deregistering_one_subscription_is_invisible_to_others() {
    let mut b = Broadcaster::new(4);
    let s1 = b.subscribe();
    let mut s2 = b.subscribe();
    assert_eq!(b.subscriber_count(), 2);
    b.publish(snap(&[1000, 2000]));
    b.unsubscribe(s1);
    assert_eq!(b.subscriber_count(), 1);
    match b.receive(&mut s2) {
        RecvOutcome::Received { seq, snapshot } => {
            assert_eq!(seq, 0);
            assert_eq!(snapshot.values(), vec![1000, 2000]);
        }
        _ => panic!("the other subscription must still be served"),
    }
    b.publish(snap(&[1500, 2500]));
    match b.receive(&mut s2) {
        RecvOutcome::Received { seq, snapshot } => {
            assert_eq!(seq, 1);
            assert_eq!(snapshot.values(), vec![1500, 2500]);
        }
        _ => panic!("delivery must continue after the deregistration"),
    }
}

#[test]
fn sampler_skips_failed_reading_and_goes_on() {
    let mut b = Broadcaster::new(4);
    let mut sub = b.subscribe();
    assert!(!tick(&mut b, None));
    assert_eq!(b.sequence_count(), 0);
    assert!(matches!(b.receive(&mut sub), RecvOutcome::Pending));
    assert!(tick(&mut b, Some(vec![5000])));
    assert_eq!(b.sequence_count(), 1);
    match b.receive(&mut sub) {
        RecvOutcome::Received { seq, snapshot } => {
            assert_eq!(seq, 0);
            assert_eq!(snapshot.values(), vec![5000]);
        }
        _ => panic!("the tick after a failed reading must publish"),
    }
}

#[test]
fn sampler_clamps_out_of_range_readings() {
    let mut b = Broadcaster::new(4);
    let mut sub = b.subscribe();
    assert!(tick(&mut b, Some(vec![20_000, 5000, 10_001])));
    match b.receive(&mut sub) {
        RecvOutcome::Received { snapshot, .. } => {
            assert_eq!(snapshot.values(), vec![10_000, 5000, 10_000]);
        }
        _ => panic!("expected the clamped snapshot"),
    }
}

#[test]
fn closed_feed_drains_then_reports_closed() {
    let mut b = Broadcaster::new(4);
    let mut sub = b.subscribe();
    b.publish(snap(&[700]));
    b.close();
    assert!(b.is_closed());
    match b.receive(&mut sub) {
        RecvOutcome::Received { seq, snapshot } => {
            assert_eq!(seq, 0);
            assert_eq!(snapshot.values(), vec![700]);
        }
        _ => panic!("the retained snapshot must still be drained"),
    }
    assert!(matches!(b.receive(&mut sub), RecvOutcome::Closed));
    assert!(matches!(b.receive(&mut sub), RecvOutcome::Closed));
}

#[test]
fn snapshot_accessors_report_the_measurement() {
    let s = snap(&[1234, 0, 10_000]);
    assert_eq!(s.core_count(), 3);
    assert_eq!(s.load_of(0), 1234);
    assert_eq!(s.load_of(1), 0);
    assert_eq!(s.load_of(2), 10_000);
    assert_eq!(s.values(), vec![1234, 0, 10_000]);
    let c = s.clone();
    assert_eq!(c.values(), vec![1234, 0, 10_000]);
}

#[test]
fn forwarder_actions_follow_each_outcome() {
    let mut f = Forwarder::new();
    assert!(f.active());
    let a = f.step(ForwarderEvent::Outcome(RecvOutcome::Pending));
    assert!(matches!(a, ForwarderAction::Wait));
    let a = f.step(ForwarderEvent::Outcome(RecvOutcome::Lagged { missed: 3 }));
    assert!(matches!(a, ForwarderAction::Receive));
    let a = f.step(ForwarderEvent::Outcome(RecvOutcome::Received {
        seq: 0,
        snapshot: snap(&[1000, 2000]),
    }));
    match a {
        ForwarderAction::Write(payload) => assert_eq!(payload, b"[10.00,20.00]".to_vec()),
        _ => panic!("a delivered snapshot must be written out"),
    }
    let a = f.step(ForwarderEvent::Wrote(true));
    assert!(matches!(a, ForwarderAction::Receive));
    assert!(f.active());
    let a = f.step(ForwarderEvent::Outcome(RecvOutcome::Closed));
    assert!(matches!(a, ForwarderAction::Stop));
    assert!(!f.active());
    // A stopped forwarder only ever asks for the stopping cleanup.
    let a = f.step(ForwarderEvent::Outcome(RecvOutcome::Pending));
    assert!(matches!(a, ForwarderAction::Stop));
}

#[test]
fn transport_failure_stops_only_the_affected_forwarder() {
    let mut b = Broadcaster::new(4);
    let mut s1 = b.subscribe();
    let mut s2 = b.subscribe();
    let mut f1 = Forwarder::new();
    let mut f2 = Forwarder::new();

    b.publish(snap(&[100]));
    // First forwarder: first message goes out fine.
    let o = b.receive(&mut s1);
    let a = f1.step(ForwarderEvent::Outcome(o));
    assert!(matches!(a, ForwarderAction::Write(_)));
    assert!(matches!(f1.step(ForwarderEvent::Wrote(true)), ForwarderAction::Receive));

    b.publish(snap(&[200]));
    // First forwarder: the write of the second message fails.
    let o = b.receive(&mut s1);
    let a = f1.step(ForwarderEvent::Outcome(o));
    assert!(matches!(a, ForwarderAction::Write(_)));
    assert!(matches!(f1.step(ForwarderEvent::Wrote(false)), ForwarderAction::Stop));
    assert!(!f1.active());
    b.unsubscribe(s1);
    assert_eq!(b.subscriber_count(), 1);

    // The second forwarder keeps receiving, uninterrupted.
    for expected_seq in 0..2u64 {
        let o = b.receive(&mut s2);
        match &o {
            RecvOutcome::Received { seq, .. } => assert_eq!(*seq, expected_seq),
            _ => panic!("the independent forwarder must still be served"),
        }
        assert!(matches!(f2.step(ForwarderEvent::Outcome(o)), ForwarderAction::Write(_)));
        assert!(matches!(f2.step(ForwarderEvent::Wrote(true)), ForwarderAction::Receive));
    }
    b.publish(snap(&[300]));
    let o = b.receive(&mut s2);
    assert!(matches!(o, RecvOutcome::Received { seq: 2, .. }));
    assert!(f2.active());
}

#[test]
fn subscription_cursor_starts_at_next_sequence() {
    let mut b = Broadcaster::new(4);
    b.publish(snap(&[100]));
    let sub = b.subscribe();
    assert_eq!(sub.next_sequence(), 1);
    b.unsubscribe(sub);
}
