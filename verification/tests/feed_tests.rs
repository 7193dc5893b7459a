use process_feed::broadcast::{reached, Broadcaster, Delivery, Subscriber, MAX_CAPACITY};
use process_feed::process_data::{OwnerId, ProcessData};

fn entry(pid: usize) -> ProcessData {
    ProcessData {
        pid,
        name: format!("p{}", pid),
        uid: OwnerId::Number(0),
        username: "root".to_string(),
    }
}

fn expect_entry(subscriber: &mut Subscriber, pid: usize) {
    match subscriber.poll() {
        Delivery::Entry(got) => assert_eq!(got, entry(pid)),
        other => panic!("expected entry {}, got {:?}", pid, other),
    }
}

fn expect_idle(subscriber: &mut Subscriber) {
    assert!(matches!(subscriber.poll(), Delivery::Idle));
}

#[test]
fn publish_fans_out_to_two_subscribers_exactly_once() {
    let (mut feed, _keep) = Broadcaster::new(16);
    let mut first = feed.subscribe();
    let mut second = feed.subscribe();
    assert_eq!(feed.publish(entry(1)), 3);
    expect_entry(&mut first, 1);
    expect_idle(&mut first);
    expect_entry(&mut second, 1);
    expect_idle(&mut second);
}

#[test]
fn detaching_one_subscriber_does_not_affect_the_other() {
    let (mut feed, _keep) = Broadcaster::new(16);
    let first = feed.subscribe();
    let mut second = feed.subscribe();
    drop(first);
    assert_eq!(feed.publish(entry(2)), 2);
    expect_entry(&mut second, 2);
    expect_idle(&mut second);
}

#[test]
fn a_lagging_subscriber_observes_a_gap() {
    let (mut feed, mut slow) = Broadcaster::new(4);
    let mut quick = feed.subscribe();
    for pid in 0..10 {
        assert_eq!(feed.publish(entry(pid)), 2);
        expect_entry(&mut quick, pid);
    }
    match slow.poll() {
        Delivery::Gap(missed) => assert_eq!(missed, 6),
        other => panic!("expected a gap, got {:?}", other),
    }
    for pid in 6..10 {
        expect_entry(&mut slow, pid);
    }
    expect_idle(&mut slow);
    expect_idle(&mut quick);
}

#[test]
fn a_subscriber_within_its_bound_observes_no_gap() {
    let (mut feed, mut subscriber) = Broadcaster::new(4);
    for pid in 0..4 {
        feed.publish(entry(pid));
    }
    for pid in 0..4 {
        expect_entry(&mut subscriber, pid);
    }
    expect_idle(&mut subscriber);
}

#[test]
fn a_new_subscriber_gets_no_replay() {
    let (mut feed, mut early) = Broadcaster::new(8);
    feed.publish(entry(1));
    let mut late = feed.subscribe();
    feed.publish(entry(2));
    expect_entry(&mut early, 1);
    expect_entry(&mut early, 2);
    expect_entry(&mut late, 2);
    expect_idle(&mut late);
}

#[test]
fn publish_without_subscribers_reaches_nobody_and_does_not_fail() {
    let (mut feed, only) = Broadcaster::new(2);
    drop(only);
    assert_eq!(feed.publish(entry(1)), 0);
    assert_eq!(feed.publish(entry(2)), 0);
    let mut later = feed.subscribe();
    expect_idle(&mut later);
    assert_eq!(feed.publish(entry(3)), 1);
    expect_entry(&mut later, 3);
}

#[test]
fn a_subscriber_learns_that_the_feed_is_closed() {
    let (mut feed, mut subscriber) = Broadcaster::new(2);
    feed.publish(entry(1));
    drop(feed);
    expect_entry(&mut subscriber, 1);
    assert!(matches!(subscriber.poll(), Delivery::Closed));
}

#[test]
fn with_capacity_refuses_what_the_channel_cannot_have() {
    assert!(Broadcaster::with_capacity(0).is_none());
    assert!(Broadcaster::with_capacity(MAX_CAPACITY + 1).is_none());
    assert!(Broadcaster::with_capacity(usize::MAX).is_none());
    assert!(Broadcaster::with_capacity(1).is_some());
    assert_eq!(MAX_CAPACITY, usize::MAX / 2);
}

#[test]
fn reached_reads_the_channel_answer() {
    assert_eq!(reached(&Ok(3)), 3);
    assert_eq!(reached(&Err(entry(1))), 0);
}

#[test]
fn into_receiver_keeps_the_subscription() {
    let (mut feed, subscriber) = Broadcaster::new(2);
    feed.publish(entry(5));
    let mut rx = subscriber.into_receiver();
    assert_eq!(rx.try_recv().ok(), Some(entry(5)));
}

#[test]
fn a_feed_keeps_the_next_power_of_two_of_its_capacity() {
    let (mut feed, mut slow) = Broadcaster::new(3);
    for pid in 0..4 {
        feed.publish(entry(pid));
    }
    for pid in 0..4 {
        expect_entry(&mut slow, pid);
    }
    for pid in 4..14 {
        feed.publish(entry(pid));
    }
    match slow.poll() {
        Delivery::Gap(missed) => assert_eq!(missed, 6),
        other => panic!("expected a gap, got {:?}", other),
    }
    for pid in 10..14 {
        expect_entry(&mut slow, pid);
    }
    expect_idle(&mut slow);
}

#[test]
fn a_feed_asked_for_five_keeps_eight() {
    let (mut feed, mut slow) = Broadcaster::new(5);
    for pid in 0..8 {
        feed.publish(entry(pid));
    }
    for pid in 0..8 {
        expect_entry(&mut slow, pid);
    }
    for pid in 8..17 {
        feed.publish(entry(pid));
    }
    match slow.poll() {
        Delivery::Gap(missed) => assert_eq!(missed, 1),
        other => panic!("expected a gap, got {:?}", other),
    }
    for pid in 9..17 {
        expect_entry(&mut slow, pid);
    }
    expect_idle(&mut slow);
}

#[test]
fn feed_and_subscriber_can_be_printed() {
    let (feed, subscriber) = Broadcaster::new(2);
    assert!(format!("{:?}", feed).starts_with("Broadcaster"));
    assert!(format!("{:?}", subscriber).starts_with("Subscriber"));
}
