use std::sync::Arc;

use bioyino_peer::codec::{reader_options, NESTING_LIMIT, TRAVERSAL_LIMIT_IN_WORDS};
use bioyino_peer::error::{PeerError, ProtocolError, RecordError};
use bioyino_peer::message::Entry;
use bioyino_peer::sender::{Connect, Delivery, SnapshotClientOptions, SnapshotSender, MAX_FRAME_ENTRIES};
use bioyino_peer::snapshot::LocalSnapshot;

fn entry(name: &str, value: u64) -> Entry<u64> {
    (name.as_bytes().to_vec(), value)
}

fn sender(bind: Option<u16>) -> SnapshotSender<u16, u64> {
    let snapshot = LocalSnapshot::new(vec![
        vec![entry("a", 1), entry("b", 2)],
        vec![],
        vec![entry("c", 3)],
    ]);
    SnapshotSender::new(Arc::new(snapshot), SnapshotClientOptions { address: 8136, bind })
}

#[test]
fn snapshot_drops_empty_shards_and_flattens_in_order() {
    let snapshot = LocalSnapshot::new(vec![
        vec![],
        vec![entry("a", 1), entry("b", 2)],
        vec![],
        vec![entry("c", 3)],
        vec![],
    ]);
    assert_eq!(snapshot.shard_count(), 2);
    assert!(!snapshot.is_empty());
    let flat: Vec<Entry<u64>> = snapshot.entries().into_iter().cloned().collect();
    assert_eq!(flat, vec![entry("a", 1), entry("b", 2), entry("c", 3)]);
}

#[test]
fn snapshot_of_empty_shards_is_empty() {
    let snapshot: LocalSnapshot<u64> = LocalSnapshot::new(vec![vec![], vec![]]);
    assert_eq!(snapshot.shard_count(), 0);
    assert!(snapshot.is_empty());
    assert!(snapshot.entries().is_empty());
    let none: LocalSnapshot<u64> = LocalSnapshot::new(vec![]);
    assert!(none.is_empty());
}

#[test]
fn sender_frames_the_whole_snapshot_once() {
    let sender = sender(None);
    let frame: Vec<Entry<u64>> = sender.frame().unwrap().into_iter().cloned().collect();
    assert_eq!(frame, vec![entry("a", 1), entry("b", 2), entry("c", 3)]);
    assert!(frame.len() <= MAX_FRAME_ENTRIES);
    assert_eq!(sender.metrics().shard_count(), 2);
}

#[test]
fn cloned_sender_shares_the_snapshot() {
    let sender = sender(Some(4000));
    let copy = sender.clone();
    assert!(std::ptr::eq(sender.metrics(), copy.metrics()));
    assert_eq!(copy.options(), sender.options());
    let frame: Vec<Entry<u64>> = copy.frame().unwrap().into_iter().cloned().collect();
    assert_eq!(frame, vec![entry("a", 1), entry("b", 2), entry("c", 3)]);
}

#[test]
fn sender_connects_directly_without_a_bind_address() {
    let sender = sender(None);
    assert_eq!(sender.options(), SnapshotClientOptions { address: 8136, bind: None });
    assert_eq!(sender.connect(), Connect::Direct { address: 8136 });
}

#[test]
fn sender_binds_first_with_a_bind_address() {
    let sender = sender(Some(4000));
    assert_eq!(sender.connect(), Connect::Bound { bind: 4000, address: 8136 });
}

#[test]
fn every_failed_delivery_counts_one_error() {
    let sender = sender(None);
    assert_eq!(sender.conclude(Delivery::Written), (Ok(()), 0));
    assert_eq!(sender.conclude(Delivery::BindFailed), (Err(PeerError::Io), 1));
    assert_eq!(sender.conclude(Delivery::ConnectFailed), (Err(PeerError::Io), 1));
    assert_eq!(
        sender.conclude(Delivery::WriteFailed(ProtocolError::TooLarge)),
        (Err(PeerError::Capnp(ProtocolError::TooLarge)), 1)
    );
    assert_eq!(
        sender.conclude(Delivery::WriteFailed(ProtocolError::TooDeep)),
        (Err(PeerError::Capnp(ProtocolError::TooDeep)), 1)
    );
}

#[test]
fn codec_limits() {
    assert_eq!(TRAVERSAL_LIMIT_IN_WORDS, 8 * 1024 * 1024 * 1024);
    assert_eq!(NESTING_LIMIT, 16);
    let options = reader_options();
    assert_eq!(options.traversal_limit_in_words, 8_589_934_592);
    assert_eq!(options.nesting_limit, 16);
}

#[test]
fn error_descriptions() {
    assert_eq!(PeerError::Io.description(), "I/O error");
    assert_eq!(PeerError::Timer.description(), "Error when creating timer");
    assert_eq!(PeerError::TaskSend.description(), "error sending task to worker thread");
    assert_eq!(PeerError::BadMessage.description(), "server received incorrect message");
    assert_eq!(PeerError::BadCommand.description(), "bad command");
    assert_eq!(PeerError::Response.description(), "response not sent");
    assert_eq!(PeerError::Capnp(ProtocolError::Malformed).description(), "decoding capnp failed");
    assert_eq!(PeerError::CapnpSchema(4).description(), "decoding capnp schema failed");
    assert_eq!(PeerError::Metric(RecordError::Capnp).description(), "decoding metric failed");
}

#[test]
fn only_a_timer_failure_is_fatal() {
    assert!(PeerError::Timer.is_fatal());
    for error in vec![
        PeerError::Io,
        PeerError::TaskSend,
        PeerError::BadMessage,
        PeerError::BadCommand,
        PeerError::Response,
        PeerError::Capnp(ProtocolError::TooLarge),
        PeerError::CapnpSchema(1),
        PeerError::Metric(RecordError::CapnpSchema(2)),
    ] {
        assert!(!error.is_fatal());
    }
}
