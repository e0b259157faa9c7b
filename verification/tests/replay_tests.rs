//! The replay session state machine, driven as the transport layer would.

use sqs_replay::message::Message;
use sqs_replay::replay::{ReplayOpts, SqsReplay, SqsReplayOptions, Step};

fn engine() -> SqsReplay {
    SqsReplay::new(SqsReplayOptions {
        source: String::from("source-queue"),
        dest: String::from("dest-queue"),
        region: None,
    })
}

#[test]
fn zero_max_messages_does_nothing() {
    // maxMessages = 0: no receives, no sends, zero stats.
    let session = engine()
        .replay(ReplayOpts { max_messages: Some(0), selector: None })
        .unwrap();
    assert_eq!(session.next_step(), Step::Finished);
    let stats = session.stats();
    assert_eq!(stats.total, 0);
    assert_eq!(stats.deduped, 0);
}

#[test]
fn two_hundred_fifty_messages_plan() {
    // maxMessages = 250: 1 probe + 2 full batches of 100 + 1 remainder of 49.
    let mut session = engine()
        .replay(ReplayOpts { max_messages: Some(250), selector: None })
        .unwrap();
    assert_eq!(session.next_step(), Step::Probe);
    session.on_received(vec![]);
    assert_eq!(session.next_step(), Step::Receive(100));
    session.on_received(vec![]);
    assert_eq!(session.next_step(), Step::Receive(100));
    session.on_received(vec![]);
    assert_eq!(session.next_step(), Step::Receive(49));
    session.on_received(vec![]);
    assert_eq!(session.next_step(), Step::Finished);
}

#[test]
fn one_message_is_probe_only() {
    let mut session = engine()
        .replay(ReplayOpts { max_messages: Some(1), selector: None })
        .unwrap();
    assert_eq!(session.next_step(), Step::Probe);
    let out = session.on_received(vec![Message::builder().body("hello").build()]);
    assert_eq!(out.forward.len(), 1);
    assert_eq!(out.discard.len(), 0);
    assert_eq!(session.next_step(), Step::Finished);
    assert_eq!(session.stats().total, 1);
}

#[test]
fn small_bound_is_one_batch() {
    // maxMessages = 6: probe, then one full batch of 5, no remainder.
    let mut session = engine()
        .replay(ReplayOpts { max_messages: Some(6), selector: None })
        .unwrap();
    assert_eq!(session.next_step(), Step::Probe);
    session.on_received(vec![]);
    assert_eq!(session.next_step(), Step::Receive(5));
    session.on_received(vec![]);
    assert_eq!(session.next_step(), Step::Finished);
}

#[test]
fn bad_selector_stops_the_run_before_any_traffic() {
    let r = engine().replay(ReplayOpts {
        max_messages: Some(10),
        selector: Some(String::from("no groups here")),
    });
    assert!(r.is_err());
}

#[test]
fn duplicates_are_skipped_across_rounds() {
    // The dedup memory persists from the probe into the batches: a key
    // seen in the probe round still skips matches in a later batch.
    let mut session = engine()
        .replay(ReplayOpts {
            max_messages: Some(3),
            selector: Some(String::from("(test)")),
        })
        .unwrap();
    assert_eq!(session.next_step(), Step::Probe);
    let out = session.on_received(vec![Message::builder().body("test a").build()]);
    assert_eq!(out.forward.len(), 1);
    assert_eq!(out.discard.len(), 0);

    assert_eq!(session.next_step(), Step::Receive(2));
    let out = session.on_received(vec![
        Message::builder().body("test b").receipt_handle("rh-1").build(),
        Message::builder().body("plain").receipt_handle("rh-2").build(),
    ]);
    assert_eq!(out.forward.len(), 1);
    assert_eq!(out.forward[0].body.as_deref(), Some("plain"));
    assert_eq!(out.discard.len(), 1);
    assert_eq!(out.discard[0].receipt_handle.as_deref(), Some("rh-1"));

    assert_eq!(session.next_step(), Step::Finished);
    let stats = session.stats();
    assert_eq!(stats.total, 2);
    assert_eq!(stats.deduped, 1);
}

#[test]
fn engine_keeps_its_endpoints() {
    let e = engine();
    assert_eq!(e.source, "source-queue");
    assert_eq!(e.dest, "dest-queue");
    assert!(e.region.is_none());
}

#[test]
fn message_builder_sets_fields() {
    let m = Message::builder().body("payload").receipt_handle("handle").build();
    assert_eq!(m.body.as_deref(), Some("payload"));
    assert_eq!(m.receipt_handle.as_deref(), Some("handle"));
    let empty = Message::builder().build();
    assert!(empty.body.is_none());
    assert!(empty.receipt_handle.is_none());
}
