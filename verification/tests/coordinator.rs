use bioyino_peer::coordinator::{
    NativeProtocolSnapshot, PeerStep, RoundFailure, RoundStatus, Settled, SnapshotRound, Tick, Timer,
};
use bioyino_peer::error::{PeerError, ProtocolError};
use bioyino_peer::message::Entry;
use bioyino_peer::retry::BackoffRetryBuilder;
use bioyino_peer::sender::{Connect, Delivery, SnapshotClientOptions};
use bioyino_peer::snapshot::LocalSnapshot;

fn entry(name: &str, value: u64) -> Entry<u64> {
    (name.as_bytes().to_vec(), value)
}

fn coordinator(peers: Vec<u16>, workers: usize) -> NativeProtocolSnapshot<u16> {
    NativeProtocolSnapshot::new(peers, Some(9000), 30_000, workers)
}

fn begin(coordinator: &NativeProtocolSnapshot<u16>) -> SnapshotRound<u64> {
    match coordinator.on_timer(Timer::Tick) {
        Tick::Gather(round) => round,
        Tick::Stop(error) => panic!("coordinator stopped: {:?}", error),
    }
}

#[test]
fn round_waits_for_every_worker() {
    let coordinator = coordinator(vec![1, 2], 3);
    let mut round = begin(&coordinator);
    assert_eq!(round.workers(), 3);
    assert_eq!(round.status(), RoundStatus::Gathering);
    assert_eq!(round.on_reply(2, vec![entry("c", 3)]), RoundStatus::Gathering);
    assert_eq!(round.on_reply(0, vec![entry("a", 1)]), RoundStatus::Gathering);
    // worker 1 never replies: there is nothing to send
    assert_eq!(round.status(), RoundStatus::Gathering);
    assert_eq!(round.finish(), Err(RoundFailure { error: PeerError::TaskSend, errors: 1 }));
}

#[test]
fn lost_reply_fails_the_round() {
    let coordinator = coordinator(vec![1, 2], 3);
    let mut round = begin(&coordinator);
    assert_eq!(round.on_reply(0, vec![entry("a", 1)]), RoundStatus::Gathering);
    assert_eq!(round.on_reply_lost(1), RoundStatus::Failed);
    // a late reply does not mend it
    assert_eq!(round.on_reply(1, vec![entry("b", 2)]), RoundStatus::Failed);
    assert_eq!(round.on_reply(2, vec![entry("c", 3)]), RoundStatus::Failed);
    assert_eq!(round.finish(), Err(RoundFailure { error: PeerError::TaskSend, errors: 1 }));
}

#[test]
fn complete_round_keeps_worker_order_and_drops_empty_shards() {
    let coordinator = coordinator(vec![1], 4);
    let mut round = begin(&coordinator);
    assert_eq!(round.on_reply(3, vec![entry("d", 4)]), RoundStatus::Gathering);
    assert_eq!(round.on_reply(1, vec![]), RoundStatus::Gathering);
    assert_eq!(round.on_reply(0, vec![entry("a", 1), entry("b", 2)]), RoundStatus::Gathering);
    assert_eq!(round.on_reply(2, vec![entry("c", 3)]), RoundStatus::Complete);
    let snapshot = round.finish().unwrap();
    assert_eq!(snapshot.shard_count(), 3);
    let flat: Vec<Entry<u64>> = snapshot.entries().into_iter().cloned().collect();
    assert_eq!(flat, vec![entry("a", 1), entry("b", 2), entry("c", 3), entry("d", 4)]);
}

#[test]
fn each_worker_replies_once() {
    let mut round: SnapshotRound<u64> = SnapshotRound::new(2);
    assert_eq!(round.on_reply(0, vec![entry("first", 1)]), RoundStatus::Gathering);
    assert_eq!(round.on_reply(0, vec![entry("second", 2)]), RoundStatus::Gathering);
    // nobody waits for worker 7, and worker 0 has replied already
    assert_eq!(round.on_reply(7, vec![entry("stray", 3)]), RoundStatus::Gathering);
    assert_eq!(round.on_reply_lost(7), RoundStatus::Gathering);
    assert_eq!(round.on_reply_lost(0), RoundStatus::Gathering);
    assert_eq!(round.on_reply(1, vec![]), RoundStatus::Complete);
    let snapshot = round.finish().unwrap();
    let flat: Vec<Entry<u64>> = snapshot.entries().into_iter().cloned().collect();
    assert_eq!(flat, vec![entry("first", 1)]);
}

#[test]
fn round_without_workers_is_complete_and_empty() {
    let round: SnapshotRound<u64> = SnapshotRound::new(0);
    assert_eq!(round.status(), RoundStatus::Complete);
    let snapshot = round.finish().unwrap();
    assert_eq!(snapshot.shard_count(), 0);
    assert!(snapshot.is_empty());
}

#[test]
fn timer_failure_stops_the_coordinator() {
    let coordinator = coordinator(vec![1], 1);
    assert_eq!(coordinator.interval(), 30_000);
    assert_eq!(coordinator.peer_count(), 1);
    match coordinator.on_timer::<u64>(Timer::Failed) {
        Tick::Stop(error) => {
            assert_eq!(error, PeerError::Timer);
            assert!(error.is_fatal());
        }
        Tick::Gather(_) => panic!("gathering on a failed timer"),
    }
}

#[test]
fn every_peer_gets_the_same_snapshot() {
    let coordinator = coordinator(vec![10, 20, 30], 2);
    let snapshot = LocalSnapshot::new(vec![vec![entry("a", 1)], vec![], vec![entry("b", 2), entry("c", 3)]]);
    let broadcast = coordinator.broadcast(snapshot);
    assert_eq!(broadcast.peer_count(), 3);
    let expected = LocalSnapshot::new(vec![vec![entry("a", 1)], vec![entry("b", 2), entry("c", 3)]]);
    assert_eq!(*broadcast.snapshot(), expected);
    for (peer, address) in vec![10u16, 20, 30].into_iter().enumerate() {
        let sender = broadcast.sender(peer).unwrap();
        // one snapshot, shared by all senders
        assert!(std::ptr::eq(sender.metrics(), broadcast.snapshot()));
        assert_eq!(*sender.metrics(), expected);
        assert_eq!(sender.options(), SnapshotClientOptions { address, bind: Some(9000) });
        assert_eq!(sender.connect(), Connect::Bound { bind: 9000, address });
        assert_eq!(broadcast.step(peer), Some(PeerStep::Wait { delay: 500 }));
        assert_eq!(broadcast.failures(peer), Some(0));
    }
    assert!(broadcast.sender(3).is_none());
    assert_eq!(broadcast.step(3), None);
    assert_eq!(broadcast.failures(3), None);
}

#[test]
fn reference_retry_policy() {
    let coordinator = coordinator(vec![], 1);
    assert_eq!(
        coordinator.retry_policy(),
        BackoffRetryBuilder { delay: 500, delay_mul: 2, delay_max: 5000, retries: 3 }
    );
}

#[test]
fn unreachable_peer_exhausts_its_attempts_alone() {
    // two peers, one reachable, one never reachable
    let coordinator = coordinator(vec![10, 20], 2);
    let mut round = begin(&coordinator);
    round.on_reply(0, vec![entry("a", 1)]);
    round.on_reply(1, vec![entry("b", 2)]);
    let mut broadcast = coordinator.broadcast(round.finish().unwrap());

    let mut errors = 0;
    let mut frames_to_reachable = 0;

    // first attempts of both peers, after 500 ms each
    assert_eq!(broadcast.step(0), Some(PeerStep::Wait { delay: 500 }));
    assert_eq!(broadcast.step(1), Some(PeerStep::Wait { delay: 500 }));
    let settled = broadcast.on_delivery(1, Delivery::ConnectFailed).unwrap();
    assert_eq!(settled, Settled { result: Err(PeerError::Io), errors: 1, next: PeerStep::Wait { delay: 1000 } });
    errors += settled.errors;
    // the reachable peer is not delayed by the failure of the other
    assert_eq!(broadcast.step(0), Some(PeerStep::Wait { delay: 500 }));
    assert_eq!(broadcast.failures(0), Some(0));

    let frame: Vec<Entry<u64>> = broadcast.sender(0).unwrap().frame().unwrap().into_iter().cloned().collect();
    assert_eq!(frame, vec![entry("a", 1), entry("b", 2)]);
    let settled = broadcast.on_delivery(0, Delivery::Written).unwrap();
    assert_eq!(settled, Settled { result: Ok(()), errors: 0, next: PeerStep::Delivered });
    frames_to_reachable += 1;
    errors += settled.errors;

    let settled = broadcast.on_delivery(1, Delivery::ConnectFailed).unwrap();
    assert_eq!(settled.next, PeerStep::Wait { delay: 2000 });
    errors += settled.errors;
    let settled = broadcast.on_delivery(1, Delivery::ConnectFailed).unwrap();
    assert_eq!(settled, Settled { result: Err(PeerError::Io), errors: 1, next: PeerStep::GaveUp });
    errors += settled.errors;

    // nothing more is attempted for either peer
    assert_eq!(broadcast.on_delivery(1, Delivery::ConnectFailed), None);
    assert_eq!(broadcast.on_delivery(0, Delivery::Written), None);
    assert_eq!(broadcast.on_delivery(2, Delivery::Written), None);

    assert_eq!(errors, 3);
    assert_eq!(frames_to_reachable, 1);
    assert_eq!(broadcast.failures(1), Some(3));
    assert_eq!(broadcast.failures(0), Some(0));
    assert_eq!(broadcast.step(0), Some(PeerStep::Delivered));
    assert_eq!(broadcast.step(1), Some(PeerStep::GaveUp));
}

#[test]
fn peer_recovers_on_a_later_attempt() {
    let coordinator = coordinator(vec![10], 1);
    let mut broadcast = coordinator.broadcast(LocalSnapshot::new(vec![vec![entry("a", 1)]]));
    let settled = broadcast.on_delivery(0, Delivery::WriteFailed(ProtocolError::Malformed)).unwrap();
    assert_eq!(
        settled,
        Settled {
            result: Err(PeerError::Capnp(ProtocolError::Malformed)),
            errors: 1,
            next: PeerStep::Wait { delay: 1000 },
        }
    );
    let settled = broadcast.on_delivery(0, Delivery::BindFailed).unwrap();
    assert_eq!(settled.result, Err(PeerError::Io));
    assert_eq!(settled.next, PeerStep::Wait { delay: 2000 });
    let settled = broadcast.on_delivery(0, Delivery::Written).unwrap();
    assert_eq!(settled, Settled { result: Ok(()), errors: 0, next: PeerStep::Delivered });
    assert_eq!(broadcast.failures(0), Some(2));
}

#[test]
fn broadcast_without_peers_sends_nothing() {
    let coordinator = coordinator(vec![], 1);
    let mut broadcast = coordinator.broadcast(LocalSnapshot::new(vec![vec![entry("a", 1)]]));
    assert_eq!(broadcast.peer_count(), 0);
    assert_eq!(broadcast.on_delivery(0, Delivery::Written), None);
}
