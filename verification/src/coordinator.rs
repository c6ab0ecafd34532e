//! The snapshot coordinator: one round of gathering and broadcasting per
//! tick.
//!
//! A round first gathers. Every worker is asked for its state, and the
//! round waits until all have replied; a worker that is gone fails the
//! round, and a failed round sends nothing. Then it broadcasts: every peer
//! gets a sender of its own for the one snapshot of the round, and every
//! sender is retried on its own, so that no peer waits for another.

use std::sync::Arc;
use vstd::prelude::*;
use crate::decode::{clean_frame, lemma_clean_frame_carries_its_message, parse_spec};
use crate::error::{PeerError, RecordError};
use crate::message::{entries_model, task_of, Entry, MessageModel, TaskModel};
use crate::retry::{lemma_gives_up_after_last_attempt, BackoffRetryBuilder, RetryState, RetryStep};
use crate::sender::{
    delivery_errors, delivery_result, share, Delivery, SnapshotClientOptions, SnapshotSender,
};
use crate::snapshot::{
    lemma_empty_shards_hold_nothing, nonempty, shards_model, LocalSnapshot, ShardModel,
};

verus! {

/// What the workers have replied so far, by worker, and whether a worker
/// was found to be gone.
pub struct RoundModel<R> {
    pub replies: Seq<Option<ShardModel<R>>>,
    pub lost: bool,
}

impl<R> RoundModel<R> {
    /// A round in which `workers` workers were asked and none has replied.
    pub open spec fn fresh(workers: nat) -> RoundModel<R> {
        RoundModel { replies: Seq::new(workers, |i: int| None), lost: false }
    }

    /// Worker `worker` was asked and has not replied.
    pub open spec fn awaits(self, worker: nat) -> bool {
        worker < self.replies.len() && self.replies[worker as int] is None
    }

    /// Every worker has replied and none was lost.
    pub open spec fn complete(self) -> bool {
        &&& !self.lost
        &&& forall|i: int| 0 <= i < self.replies.len() ==> (#[trigger] self.replies[i]) is Some
    }

    /// The round after `worker` replied with `shard`. Each worker replies
    /// once: a reply that nobody waits for changes nothing, and neither
    /// does one that comes when the round has failed.
    pub open spec fn replied(self, worker: nat, shard: ShardModel<R>) -> RoundModel<R> {
        if !self.lost && self.awaits(worker) {
            RoundModel { replies: self.replies.update(worker as int, Some(shard)), ..self }
        } else {
            self
        }
    }

    /// The round after the reply of `worker` was lost, which fails it if
    /// the reply was still waited for.
    pub open spec fn lost_reply(self, worker: nat) -> RoundModel<R> {
        if self.awaits(worker) {
            RoundModel { lost: true, ..self }
        } else {
            self
        }
    }

    /// The replies, by worker.
    pub open spec fn shards(self) -> Seq<ShardModel<R>>
        recommends
            self.complete(),
    {
        self.replies.map_values(|reply: Option<ShardModel<R>>| reply.unwrap())
    }

    /// What the round has to send once it is complete: the replies that
    /// hold something, in the order of the workers.
    pub open spec fn snapshot(self) -> Seq<ShardModel<R>>
        recommends
            self.complete(),
    {
        nonempty(self.shards())
    }
}

/// How far the gathering of a round has come.
#[derive(Clone, Copy, Debug, PartialEq, Eq, Structural)]
pub enum RoundStatus {
    /// Some worker has yet to reply.
    Gathering,
    /// Every worker has replied.
    Complete,
    /// A worker is gone: the round has failed.
    Failed,
}

pub open spec fn status_of<R>(round: RoundModel<R>) -> RoundStatus {
    if round.lost {
        RoundStatus::Failed
    } else if round.complete() {
        RoundStatus::Complete
    } else {
        RoundStatus::Gathering
    }
}

/// Why a round has nothing to send.
#[derive(Clone, Copy, Debug, PartialEq, Eq, Structural)]
pub struct RoundFailure {
    /// The error that the round failed with.
    pub error: PeerError,
    /// What the failure adds to the count of peer errors.
    pub errors: usize,
}

/// The gathering half of one round.
#[derive(Debug)]
pub struct SnapshotRound<R> {
    replies: Vec<Option<Vec<Entry<R>>>>,
    lost: bool,
}

pub open spec fn reply_model<R>(reply: Option<Vec<Entry<R>>>) -> Option<ShardModel<R>> {
    match reply {
        Some(shard) => Some(entries_model(shard@)),
        None => None,
    }
}

impl<R> View for SnapshotRound<R> {
    type V = RoundModel<R>;

    closed spec fn view(&self) -> RoundModel<R> {
        RoundModel {
            replies: self.replies@.map_values(|reply: Option<Vec<Entry<R>>>| reply_model(reply)),
            lost: self.lost,
        }
    }
}

impl<R> SnapshotRound<R> {
    /// Begins a round in which `workers` workers are asked for their state.
    pub fn new(workers: usize) -> (round: SnapshotRound<R>)
        ensures
            round@ == RoundModel::<R>::fresh(workers as nat),
    {
        let mut replies: Vec<Option<Vec<Entry<R>>>> = Vec::new();
        let mut i: usize = 0;
        while i < workers
            invariant
                i <= workers,
                replies@.len() == i,
                forall|j: int| 0 <= j < i ==> (#[trigger] replies@[j]) is None,
            decreases workers - i,
        {
            replies.push(None);
            i = i + 1;
        }
        let round = SnapshotRound { replies, lost: false };
        assert(round@.replies =~= RoundModel::<R>::fresh(workers as nat).replies);
        round
    }

    /// The number of workers that were asked.
    pub fn workers(&self) -> (workers: usize)
        ensures
            workers == self@.replies.len(),
    {
        self.replies.len()
    }

    /// How far the round has come.
    pub fn status(&self) -> (status: RoundStatus)
        ensures
            status == status_of(self@),
    {
        if self.lost {
            return RoundStatus::Failed;
        }
        let mut i: usize = 0;
        while i < self.replies.len()
            invariant
                i <= self.replies.len(),
                !self.lost,
                forall|j: int| 0 <= j < i ==> (#[trigger] self@.replies[j]) is Some,
            decreases self.replies.len() - i,
        {
            if self.replies[i].is_none() {
                return RoundStatus::Gathering;
            }
            assert(self@.replies[i as int] is Some);
            i = i + 1;
        }
        RoundStatus::Complete
    }

    /// Takes in the reply of `worker` and says how far the round has come.
    pub fn on_reply(&mut self, worker: usize, shard: Vec<Entry<R>>) -> (status: RoundStatus)
        ensures
            final(self)@ == old(self)@.replied(worker as nat, entries_model(shard@)),
            status == status_of(final(self)@),
    {
        if !self.lost && worker < self.replies.len() && self.replies[worker].is_none() {
            self.replies.set(worker, Some(shard));
            assert(self@.replies =~= old(self)@.replies.update(
                worker as int,
                Some(entries_model(shard@)),
            ));
        }
        self.status()
    }

    /// Takes in that the reply of `worker` will never come and says how far
    /// the round has come.
    pub fn on_reply_lost(&mut self, worker: usize) -> (status: RoundStatus)
        ensures
            final(self)@ == old(self)@.lost_reply(worker as nat),
            status == status_of(final(self)@),
    {
        if worker < self.replies.len() && self.replies[worker].is_none() {
            self.lost = true;
        }
        self.status()
    }

    /// Ends the gathering.
    ///
    /// There is a snapshot exactly when the round is complete, and it is
    /// made of the replies that hold something, in the order of the
    /// workers. A round that is not complete has failed for want of a
    /// worker: it leaves nothing to send and counts as one peer error.
    pub fn finish(self) -> (gathered: Result<LocalSnapshot<R>, RoundFailure>)
        ensures
            match gathered {
                Ok(snapshot) => self@.complete() && snapshot@ == self@.snapshot() && snapshot.wf(),
                Err(failure) => !self@.complete() && failure == (RoundFailure {
                    error: PeerError::TaskSend,
                    errors: 1,
                }),
            },
    {
        match self.status() {
            RoundStatus::Complete => {},
            _ => {
                return Err(RoundFailure { error: PeerError::TaskSend, errors: 1 });
            },
        }
        let ghost all = self@.shards();
        let ghost round = self@;
        let mut shards: Vec<Vec<Entry<R>>> = Vec::new();
        for reply in it: self.replies
            invariant
                round.complete(),
                all == round.shards(),
                round.replies == it.seq().map_values(
                    |reply: Option<Vec<Entry<R>>>| reply_model(reply),
                ),
                shards_model(shards@) == all.take(it.index() as int),
        {
            proof {
                let i = it.index() as int;
                assert(all.take(i + 1) == all.take(i).push(all[i]));
            }
            match reply {
                Some(shard) => {
                    shards.push(shard);
                },
                None => {},
            }
        }
        proof {
            assert(all.take(all.len() as int) == all);
        }
        Ok(LocalSnapshot::new(shards))
    }
}

/// The barrier of a round: as long as some worker has not replied the round
/// is not complete, whatever the other workers do.
pub proof fn lemma_round_waits_for_every_worker<R>(round: RoundModel<R>, worker: nat)
    requires
        round.awaits(worker),
    ensures
        !round.complete(),
        forall|other: nat, shard: ShardModel<R>|
            other != worker ==> (#[trigger] round.replied(other, shard)).awaits(worker),
        forall|other: nat| (#[trigger] round.lost_reply(other)).awaits(worker),
{
}

/// A failed round stays failed: no reply completes it.
pub proof fn lemma_failed_round_is_final<R>(round: RoundModel<R>)
    requires
        round.lost,
    ensures
        !round.complete(),
        forall|worker: nat, shard: ShardModel<R>| #[trigger] round.replied(worker, shard) == round,
        forall|worker: nat| (#[trigger] round.lost_reply(worker)).lost,
{
}

/// What the timer of the coordinator reports.
#[derive(Clone, Copy, Debug, PartialEq, Eq, Structural)]
pub enum Timer {
    /// The interval has passed.
    Tick,
    /// The timer itself has failed.
    Failed,
}

/// What the coordinator does about its timer.
#[derive(Debug)]
pub enum Tick<R> {
    /// Ask every worker for its state and gather the replies in this round.
    Gather(SnapshotRound<R>),
    /// Stop for good with this error.
    Stop(PeerError),
}

/// How one peer fares in a broadcast: where its snapshot goes, the policy
/// it is retried under, how many attempts have failed, and whether an
/// attempt has succeeded.
pub struct PeerModel<A> {
    pub target: SnapshotClientOptions<A>,
    pub policy: BackoffRetryBuilder,
    pub failures: nat,
    pub delivered: bool,
}

/// What is next for a peer.
#[derive(Clone, Copy, Debug, PartialEq, Eq, Structural)]
pub enum PeerStep {
    /// Wait for `delay` milliseconds, then attempt to send the snapshot.
    Wait { delay: u64 },
    /// The peer has the snapshot.
    Delivered,
    /// Every attempt has failed: the peer goes without this snapshot.
    GaveUp,
}

impl<A> PeerModel<A> {
    /// A peer to which nothing was sent yet.
    pub open spec fn fresh(target: SnapshotClientOptions<A>, policy: BackoffRetryBuilder) -> PeerModel<
        A,
    > {
        PeerModel { target, policy, failures: 0, delivered: false }
    }

    /// An attempt is under way or still to come.
    pub open spec fn active(self) -> bool {
        !self.delivered && self.failures < self.policy.retries
    }

    /// What is next for the peer.
    pub open spec fn step(self) -> PeerStep {
        if self.delivered {
            PeerStep::Delivered
        } else {
            match self.policy.step_after(self.failures) {
                RetryStep::Wait { delay } => PeerStep::Wait { delay },
                RetryStep::GiveUp => PeerStep::GaveUp,
            }
        }
    }

    /// The peer after an attempt that ended in `delivery`. Where no attempt
    /// can have been made, nothing changes.
    pub open spec fn after(self, delivery: Delivery) -> PeerModel<A> {
        if !self.active() {
            self
        } else if delivery is Written {
            PeerModel { delivered: true, ..self }
        } else {
            PeerModel { failures: self.failures + 1, ..self }
        }
    }

    /// The peer after attempts that ended as `deliveries` say, in order.
    pub open spec fn after_all(self, deliveries: Seq<Delivery>) -> PeerModel<A>
        decreases deliveries.len(),
    {
        if deliveries.len() == 0 {
            self
        } else {
            self.after_all(deliveries.drop_last()).after(deliveries.last())
        }
    }

    /// What attempts that ended as `deliveries` say add to the count of
    /// peer errors: one for each that was made and failed.
    pub open spec fn errors_of(self, deliveries: Seq<Delivery>) -> nat
        decreases deliveries.len(),
    {
        if deliveries.len() == 0 {
            0
        } else {
            self.errors_of(deliveries.drop_last()) + if self.after_all(
                deliveries.drop_last(),
            ).active() {
                delivery_errors(deliveries.last())
            } else {
                0
            }
        }
    }
}

/// A broadcast: the snapshot of the round, and how each peer fares.
pub struct BroadcastModel<A, R> {
    pub snapshot: Seq<ShardModel<R>>,
    pub peers: Seq<PeerModel<A>>,
}

impl<A, R> BroadcastModel<A, R> {
    /// The broadcast after an attempt for `peer` ended in `delivery`: that
    /// peer has moved on, every other peer is as it was.
    pub open spec fn after(self, peer: nat, delivery: Delivery) -> BroadcastModel<A, R> {
        if peer < self.peers.len() {
            BroadcastModel {
                peers: self.peers.update(peer as int, self.peers[peer as int].after(delivery)),
                ..self
            }
        } else {
            self
        }
    }
}

/// What became of one attempt.
#[derive(Clone, Copy, Debug, PartialEq, Eq)]
pub struct Settled {
    /// The result of the attempt.
    pub result: Result<(), PeerError>,
    /// What the attempt adds to the count of peer errors.
    pub errors: usize,
    /// What is next for the peer.
    pub next: PeerStep,
}

/// One peer of a broadcast: where its snapshot goes and how far the
/// sending has come.
#[derive(Debug)]
struct PeerState<A> {
    target: SnapshotClientOptions<A>,
    retry: RetryState,
    delivered: bool,
}

impl<A: Copy> Clone for PeerState<A> {
    fn clone(&self) -> (copy: Self)
        ensures
            copy == *self,
    {
        *self
    }
}

impl<A: Copy> Copy for PeerState<A> {

}

impl<A> PeerState<A> {
    spec fn model(&self) -> PeerModel<A> {
        PeerModel {
            target: self.target,
            policy: self.retry.policy(),
            failures: self.retry.attempts(),
            delivered: self.delivered,
        }
    }

    fn step(&self) -> (step: PeerStep)
        ensures
            step == self.model().step(),
    {
        if self.delivered {
            PeerStep::Delivered
        } else {
            match self.retry.step() {
                RetryStep::Wait { delay } => PeerStep::Wait { delay },
                RetryStep::GiveUp => PeerStep::GaveUp,
            }
        }
    }
}

/// The broadcasting half of one round.
#[derive(Debug)]
pub struct Broadcast<A, R> {
    snapshot: Arc<LocalSnapshot<R>>,
    peers: Vec<PeerState<A>>,
}

impl<A, R> View for Broadcast<A, R> {
    type V = BroadcastModel<A, R>;

    closed spec fn view(&self) -> BroadcastModel<A, R> {
        BroadcastModel {
            snapshot: (*self.snapshot)@,
            peers: self.peers@.map_values(|peer: PeerState<A>| peer.model()),
        }
    }
}

impl<A, R> Broadcast<A, R> {
    /// The number of peers.
    pub fn peer_count(&self) -> (count: usize)
        ensures
            count == self@.peers.len(),
    {
        self.peers.len()
    }

    /// The snapshot that is broadcast.
    pub fn snapshot(&self) -> (snapshot: &LocalSnapshot<R>)
        ensures
            snapshot@ == self@.snapshot,
    {
        &self.snapshot
    }

    /// What is next for `peer`, if there is such a peer.
    pub fn step(&self, peer: usize) -> (step: Option<PeerStep>)
        ensures
            step == if peer < self@.peers.len() {
                Some(self@.peers[peer as int].step())
            } else {
                None
            },
    {
        if peer < self.peers.len() {
            Some(self.peers[peer].step())
        } else {
            None
        }
    }

    /// How many attempts for `peer` have failed, if there is such a peer.
    pub fn failures(&self, peer: usize) -> (failures: Option<usize>)
        ensures
            failures matches Some(n) ==> peer < self@.peers.len() && n
                == self@.peers[peer as int].failures,
            failures is None ==> peer >= self@.peers.len(),
    {
        if peer < self.peers.len() {
            Some(self.peers[peer].retry.attempt_count())
        } else {
            None
        }
    }
}

impl<A: Copy, R> Broadcast<A, R> {
    /// A sender for `peer`, if there is such a peer. It sends the snapshot
    /// of the round, which it shares with the broadcast, to the peer's
    /// address.
    pub fn sender(&self, peer: usize) -> (sender: Option<SnapshotSender<A, R>>)
        ensures
            sender is Some <==> peer < self@.peers.len(),
            sender matches Some(s) ==> s.snapshot()@ == self@.snapshot && s.target()
                == self@.peers[peer as int].target,
    {
        if peer < self.peers.len() {
            Some(SnapshotSender::new(share(&self.snapshot), self.peers[peer].target))
        } else {
            None
        }
    }

    /// Takes in that an attempt for `peer` ended in `delivery`.
    ///
    /// The attempt is settled exactly when there is such a peer and an
    /// attempt for it could be under way: then the result is that of the
    /// delivery, every failure counts as one peer error, and the peer is
    /// either done, or waits for its next attempt, or is given up. No other
    /// peer is touched.
    pub fn on_delivery(&mut self, peer: usize, delivery: Delivery) -> (settled: Option<Settled>)
        ensures
            final(self)@ == old(self)@.after(peer as nat, delivery),
            settled is Some <==> peer < old(self)@.peers.len() && old(self)@.peers[peer as int].active(),
            settled matches Some(s) ==> {
                &&& s.result == delivery_result(delivery)
                &&& s.errors == delivery_errors(delivery)
                &&& s.next == final(self)@.peers[peer as int].step()
            },
    {
        if peer >= self.peers.len() {
            return None;
        }
        let mut state = self.peers[peer];
        proof {
            lemma_gives_up_after_last_attempt(state.retry.policy(), state.retry.attempts());
        }
        match state.step() {
            PeerStep::Wait { .. } => {},
            _ => {
                assert(self@.peers =~= old(self)@.after(peer as nat, delivery).peers);
                return None;
            },
        }
        let (result, errors) = delivery.conclude();
        match delivery {
            Delivery::Written => {
                state.delivered = true;
            },
            _ => {
                state.retry.on_failure();
            },
        }
        let next = state.step();
        self.peers.set(peer, state);
        assert(self@.peers =~= old(self)@.after(peer as nat, delivery).peers);
        Some(Settled { result, errors, next })
    }
}

/// The policy under which every sender of a round is retried: three
/// attempts, the first after half a second, each later one after twice the
/// delay of the one before, and none after more than five seconds.
pub open spec fn peer_retry_policy() -> BackoffRetryBuilder {
    BackoffRetryBuilder { delay: 500, delay_mul: 2, delay_max: 5000, retries: 3 }
}

/// The coordinator of the snapshot rounds: the peers, the local address to
/// reach them from, the interval between rounds in milliseconds, and the
/// number of local workers.
#[derive(Debug)]
pub struct NativeProtocolSnapshot<A> {
    nodes: Vec<A>,
    client_bind: Option<A>,
    interval: u64,
    channels: usize,
}

impl<A> NativeProtocolSnapshot<A> {
    /// The addresses of the peers.
    pub closed spec fn nodes(&self) -> Seq<A> {
        self.nodes@
    }

    /// The local address that connections to peers leave from, if any.
    pub closed spec fn client_bind(&self) -> Option<A> {
        self.client_bind
    }

    /// The time from one round to the next, in milliseconds.
    pub closed spec fn period(&self) -> u64 {
        self.interval
    }

    /// The number of local workers.
    pub closed spec fn workers(&self) -> nat {
        self.channels as nat
    }

    pub fn new(nodes: Vec<A>, client_bind: Option<A>, interval: u64, channels: usize) -> (coordinator:
        Self)
        ensures
            coordinator.nodes() == nodes@,
            coordinator.client_bind() == client_bind,
            coordinator.period() == interval,
            coordinator.workers() == channels,
    {
        NativeProtocolSnapshot { nodes, client_bind, interval, channels }
    }

    /// The time from one round to the next, in milliseconds.
    pub fn interval(&self) -> (interval: u64)
        ensures
            interval == self.period(),
    {
        self.interval
    }

    /// The number of peers.
    pub fn peer_count(&self) -> (count: usize)
        ensures
            count == self.nodes().len(),
    {
        self.nodes.len()
    }

    /// Decides what a report of the timer leads to: a tick begins a round
    /// in which every worker is asked and none has replied, a failure of the
    /// timer ends the coordinator.
    pub fn on_timer<R>(&self, timer: Timer) -> (tick: Tick<R>)
        ensures
            match timer {
                Timer::Tick => tick matches Tick::Gather(round) && round@ == RoundModel::<R>::fresh(
                    self.workers(),
                ),
                Timer::Failed => tick matches Tick::Stop(error) && error == PeerError::Timer,
            },
    {
        match timer {
            Timer::Tick => Tick::Gather(SnapshotRound::new(self.channels)),
            Timer::Failed => Tick::Stop(PeerError::Timer),
        }
    }

    /// The policy under which every sender is retried.
    pub fn retry_policy(&self) -> (policy: BackoffRetryBuilder)
        ensures
            policy == peer_retry_policy(),
    {
        BackoffRetryBuilder { delay: 500, delay_mul: 2, delay_max: 5000, retries: 3 }
    }
}

impl<A: Copy> NativeProtocolSnapshot<A> {
    /// Where the snapshot goes for the peer at `address`.
    pub open spec fn target(&self, address: A) -> SnapshotClientOptions<A> {
        SnapshotClientOptions { address, bind: self.client_bind() }
    }

    /// Begins the broadcast of `snapshot`: one sender for every peer, in
    /// the order of the peers, each with the one snapshot, the peer's
    /// address and the common local address, and each with all its
    /// attempts still to come.
    pub fn broadcast<R>(&self, snapshot: LocalSnapshot<R>) -> (broadcast: Broadcast<A, R>)
        ensures
            broadcast@.snapshot == snapshot@,
            broadcast@.peers.len() == self.nodes().len(),
            forall|i: int|
                0 <= i < self.nodes().len() ==> (#[trigger] broadcast@.peers[i]) == PeerModel::fresh(
                    self.target(self.nodes()[i]),
                    peer_retry_policy(),
                ),
    {
        let ghost model = snapshot@;
        let shared = Arc::new(snapshot);
        let policy = self.retry_policy();
        let mut peers: Vec<PeerState<A>> = Vec::new();
        let mut i: usize = 0;
        while i < self.nodes.len()
            invariant
                i <= self.nodes.len(),
                policy == peer_retry_policy(),
                peers@.len() == i,
                forall|j: int|
                    0 <= j < i ==> (#[trigger] peers@[j]).model() == PeerModel::fresh(
                        self.target(self.nodes()[j]),
                        peer_retry_policy(),
                    ),
            decreases self.nodes.len() - i,
        {
            let target = SnapshotClientOptions { address: self.nodes[i], bind: self.client_bind };
            peers.push(PeerState { target, retry: RetryState::new(policy), delivered: false });
            i = i + 1;
        }
        Broadcast { snapshot: shared, peers }
    }
}

/// Peers do not touch each other. What happens to one peer leaves every
/// other peer of the broadcast as it was, and what happens to two peers
/// leads to the same broadcast in either order: so no peer waits for
/// another, and none fails because another did.
pub proof fn lemma_peers_are_independent<A, R>(
    broadcast: BroadcastModel<A, R>,
    peer: nat,
    delivery: Delivery,
    other: nat,
    other_delivery: Delivery,
)
    requires
        peer != other,
        other < broadcast.peers.len(),
    ensures
        broadcast.after(peer, delivery).peers[other as int] == broadcast.peers[other as int],
        broadcast.after(peer, delivery).snapshot == broadcast.snapshot,
        broadcast.after(peer, delivery).after(other, other_delivery) == broadcast.after(
            other,
            other_delivery,
        ).after(peer, delivery),
{
    let left = broadcast.after(peer, delivery).after(other, other_delivery);
    let right = broadcast.after(other, other_delivery).after(peer, delivery);
    assert(left.peers =~= right.peers);
}

/// A peer that is never reached is given up after exactly as many attempts
/// as the policy allows, and adds exactly that many to the count of peer
/// errors. After any number of attempts of which none succeeded, the
/// failures counted and the errors added are both the number of attempts,
/// or all that the policy allows if that is fewer; the peer is given up
/// once they are as many as the policy allows, and not before; and it never
/// counts as delivered.
pub proof fn lemma_unreachable_peer_is_given_up<A>(
    target: SnapshotClientOptions<A>,
    policy: BackoffRetryBuilder,
    deliveries: Seq<Delivery>,
)
    requires
        forall|i: int| 0 <= i < deliveries.len() ==> !((#[trigger] deliveries[i]) is Written),
    ensures
        PeerModel::fresh(target, policy).after_all(deliveries) == (PeerModel {
            failures: if deliveries.len() <= policy.retries {
                deliveries.len()
            } else {
                policy.retries as nat
            },
            ..PeerModel::fresh(target, policy)
        }),
        PeerModel::fresh(target, policy).errors_of(deliveries) == PeerModel::fresh(
            target,
            policy,
        ).after_all(deliveries).failures,
        PeerModel::fresh(target, policy).after_all(deliveries).step() is GaveUp
            <==> deliveries.len() >= policy.retries,
        deliveries.len() < policy.retries ==> PeerModel::fresh(target, policy).after_all(
            deliveries,
        ).step() == (PeerStep::Wait { delay: policy.delay_before(deliveries.len() + 1) as u64 }),
    decreases deliveries.len(),
{
    if deliveries.len() > 0 {
        let rest = deliveries.drop_last();
        assert forall|i: int| 0 <= i < rest.len() implies !((#[trigger] rest[i]) is Written) by {
            assert(rest[i] == deliveries[i]);
        }
        lemma_unreachable_peer_is_given_up(target, policy, rest);
        assert(!(deliveries.last() is Written));
    }
    lemma_gives_up_after_last_attempt(policy, deliveries.len());
}

/// What a round hears of its workers.
pub enum RoundEvent<R> {
    /// The worker has replied with its state.
    Reply(nat, ShardModel<R>),
    /// The worker's reply will never come.
    Lost(nat),
}

/// The worker that an event is about.
pub open spec fn event_worker<R>(event: RoundEvent<R>) -> nat {
    match event {
        RoundEvent::Reply(worker, _) => worker,
        RoundEvent::Lost(worker) => worker,
    }
}

impl<R> RoundModel<R> {
    /// The round after `event`.
    pub open spec fn heard(self, event: RoundEvent<R>) -> RoundModel<R> {
        match event {
            RoundEvent::Reply(worker, shard) => self.replied(worker, shard),
            RoundEvent::Lost(worker) => self.lost_reply(worker),
        }
    }

    /// The round after all of `events`, in order.
    pub open spec fn heard_all(self, events: Seq<RoundEvent<R>>) -> RoundModel<R>
        decreases events.len(),
    {
        if events.len() == 0 {
            self
        } else {
            self.heard_all(events.drop_last()).heard(events.last())
        }
    }
}

/// The barrier holds over a whole round. If nothing is ever heard of some
/// worker that was asked, the round never becomes complete, so that it
/// never has a snapshot to send: all workers, or nothing.
pub proof fn lemma_silent_worker_blocks_round<R>(
    workers: nat,
    events: Seq<RoundEvent<R>>,
    worker: nat,
)
    requires
        worker < workers,
        forall|i: int| 0 <= i < events.len() ==> event_worker(#[trigger] events[i]) != worker,
    ensures
        RoundModel::<R>::fresh(workers).heard_all(events).awaits(worker),
        !RoundModel::<R>::fresh(workers).heard_all(events).complete(),
    decreases events.len(),
{
    let start = RoundModel::<R>::fresh(workers);
    if events.len() > 0 {
        let rest = events.drop_last();
        assert forall|i: int| 0 <= i < rest.len() implies event_worker(#[trigger] rest[i])
            != worker by {
            assert(rest[i] == events[i]);
        }
        lemma_silent_worker_blocks_round(workers, rest, worker);
        lemma_round_waits_for_every_worker(start.heard_all(rest), worker);
    }
    lemma_round_waits_for_every_worker(start.heard_all(events), worker);
}

/// Once the reply of a worker is lost while the round waits for it, the
/// round has failed and stays so: nothing that is heard later completes it.
pub proof fn lemma_lost_worker_fails_round<R>(
    round: RoundModel<R>,
    worker: nat,
    events: Seq<RoundEvent<R>>,
)
    requires
        round.awaits(worker),
    ensures
        round.lost_reply(worker).heard_all(events).lost,
        !round.lost_reply(worker).heard_all(events).complete(),
    decreases events.len(),
{
    if events.len() > 0 {
        lemma_lost_worker_fails_round(round, worker, events.drop_last());
        lemma_failed_round_is_final(round.lost_reply(worker).heard_all(events.drop_last()));
    }
}

/// A round that is complete sends what its workers replied. The one frame
/// that every peer is sent holds the entries of all replies, worker after
/// worker and each reply in its own order; and a peer that decodes every
/// record of that frame adds exactly these entries as one snapshot.
pub proof fn lemma_round_arrives_whole<R>(round: RoundModel<R>)
    requires
        round.complete(),
    ensures
        round.snapshot().flatten() == round.shards().flatten(),
        parse_spec(clean_frame(MessageModel::Snapshot(round.snapshot().flatten()))) == Ok::<
            MessageModel<R>,
            RecordError,
        >(MessageModel::Snapshot(round.shards().flatten())),
        task_of(MessageModel::Snapshot(round.shards().flatten())) == TaskModel::AddSnapshot(
            round.shards().flatten(),
        ),
{
    lemma_empty_shards_hold_nothing(round.shards());
    lemma_clean_frame_carries_its_message(MessageModel::Snapshot(round.snapshot().flatten()));
}

} // verus!
