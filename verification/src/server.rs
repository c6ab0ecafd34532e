//! The inbound side: peers connect and send frames, and each frame becomes
//! a task for one of the local workers.
//!
//! Every connection walks the worker channels in rotation with a cursor of
//! its own, starting at the first channel. A frame takes the channel under
//! the cursor whether or not it yields a task, so where a frame goes depends
//! only on how many frames the connection delivered before it.

use vstd::prelude::*;
use vstd::arithmetic::div_mod::{lemma_fundamental_div_mod, lemma_fundamental_div_mod_converse};
use crate::decode::{dropped_spec, parse_spec, Frame, FrameModel};
use crate::error::{PeerError, ProtocolError};
use crate::message::{task_of, Task, TaskModel};

verus! {

/// What the transport of one connection reports.
#[derive(Debug, PartialEq)]
pub enum Inbound<R> {
    /// A frame was read to its end and decoded.
    Frame(Frame<R>),
    /// The stream is broken or holds a frame that the codec refuses.
    Failed(ProtocolError),
    /// The peer closed the stream at a frame boundary.
    Closed,
}

pub enum InboundModel<R> {
    Frame(FrameModel<R>),
    Failed(ProtocolError),
    Closed,
}

impl<R> View for Inbound<R> {
    type V = InboundModel<R>;

    open spec fn view(&self) -> InboundModel<R> {
        match *self {
            Inbound::Frame(frame) => InboundModel::Frame(frame@),
            Inbound::Failed(error) => InboundModel::Failed(error),
            Inbound::Closed => InboundModel::Closed,
        }
    }
}

/// What is to be done about an inbound event.
#[derive(Debug, PartialEq)]
pub enum Reaction<R> {
    /// Send `task` to the worker behind channel `channel`; `dropped`
    /// records of the frame did not decode and are not part of the task.
    Dispatch { channel: usize, task: Task<R>, dropped: usize },
    /// The frame yields no task, for the reason given. It took channel
    /// `channel` all the same, and the connection stays open.
    Discard { channel: usize, error: PeerError },
    /// Stop reading and release the connection.
    Close { cause: Option<PeerError> },
    /// The connection is closed already: nothing is to be done.
    Ignore,
}

pub enum ReactionModel<R> {
    Dispatch { channel: nat, task: TaskModel<R>, dropped: nat },
    Discard { channel: nat, error: PeerError },
    Close { cause: Option<PeerError> },
    Ignore,
}

impl<R> View for Reaction<R> {
    type V = ReactionModel<R>;

    open spec fn view(&self) -> ReactionModel<R> {
        match *self {
            Reaction::Dispatch { channel, task, dropped } => ReactionModel::Dispatch {
                channel: channel as nat,
                task: task@,
                dropped: dropped as nat,
            },
            Reaction::Discard { channel, error } => ReactionModel::Discard {
                channel: channel as nat,
                error,
            },
            Reaction::Close { cause } => ReactionModel::Close { cause },
            Reaction::Ignore => ReactionModel::Ignore,
        }
    }
}

/// The state of one connection: how many worker channels there are, which
/// of them the next frame takes, and whether the connection is still read.
pub struct ConnectionModel {
    pub channels: nat,
    pub cursor: nat,
    pub open: bool,
}

impl ConnectionModel {
    /// A connection that has delivered nothing yet.
    pub open spec fn fresh(channels: nat) -> ConnectionModel {
        ConnectionModel { channels, cursor: 0, open: true }
    }

    /// The cursor points at a channel, where there is one.
    pub open spec fn wf(self) -> bool {
        if self.channels == 0 {
            self.cursor == 0
        } else {
            self.cursor < self.channels
        }
    }

    /// The state after a frame took the channel under the cursor.
    pub open spec fn advanced(self) -> ConnectionModel {
        ConnectionModel {
            cursor: if self.cursor + 1 < self.channels {
                self.cursor + 1
            } else {
                0
            },
            ..self
        }
    }

    /// The state after the connection was given up.
    pub open spec fn closed(self) -> ConnectionModel {
        ConnectionModel { open: false, ..self }
    }

    /// The state after `event`.
    pub open spec fn next<R>(self, event: InboundModel<R>) -> ConnectionModel {
        if !self.open {
            self
        } else {
            match event {
                InboundModel::Frame(_) => self.advanced(),
                InboundModel::Failed(_) => self.closed(),
                InboundModel::Closed => self.closed(),
            }
        }
    }

    /// What is to be done about `event`.
    ///
    /// A frame goes to the channel under the cursor: as the task of its
    /// message, or discarded with its record's error where it carries no
    /// message. A
    /// failure of the stream closes the connection with that failure, the
    /// end of the stream closes it without one. Nothing is done for a
    /// connection that is closed already.
    pub open spec fn reaction<R>(self, event: InboundModel<R>) -> ReactionModel<R> {
        if !self.open {
            ReactionModel::Ignore
        } else {
            match event {
                InboundModel::Frame(frame) => match parse_spec(frame) {
                    Ok(message) => ReactionModel::Dispatch {
                        channel: self.cursor,
                        task: task_of(message),
                        dropped: dropped_spec(frame),
                    },
                    Err(error) => ReactionModel::Discard {
                        channel: self.cursor,
                        error: PeerError::Metric(error),
                    },
                },
                InboundModel::Failed(error) => ReactionModel::Close {
                    cause: Some(PeerError::Capnp(error)),
                },
                InboundModel::Closed => ReactionModel::Close { cause: None },
            }
        }
    }
}

/// One inbound connection.
#[derive(Debug)]
pub struct Connection {
    channels: usize,
    cursor: usize,
    open: bool,
}

impl View for Connection {
    type V = ConnectionModel;

    closed spec fn view(&self) -> ConnectionModel {
        ConnectionModel {
            channels: self.channels as nat,
            cursor: self.cursor as nat,
            open: self.open,
        }
    }
}

impl Connection {
    /// The cursor points at a channel, where there is one.
    #[verifier::type_invariant]
    closed spec fn well_formed(&self) -> bool {
        self@.wf()
    }

    /// A connection that has delivered nothing yet, in front of `channels`
    /// worker channels.
    pub fn new(channels: usize) -> (connection: Connection)
        ensures
            connection@ == ConnectionModel::fresh(channels as nat),
            connection@.wf(),
    {
        Connection { channels, cursor: 0, open: true }
    }

    /// Whether frames are still read from this connection.
    pub fn is_open(&self) -> (open: bool)
        ensures
            open == self@.open,
    {
        self.open
    }

    /// The channel that the next frame takes.
    pub fn cursor(&self) -> (cursor: usize)
        ensures
            cursor == self@.cursor,
            self@.wf(),
    {
        proof {
            use_type_invariant(self);
        }
        self.cursor
    }

    /// Decides what is to be done about `event` and moves the connection on.
    ///
    /// A frame needs a channel to go to: with no worker channels at all
    /// there is nothing to rotate over.
    pub fn handle<R>(&mut self, event: Inbound<R>) -> (reaction: Reaction<R>)
        requires
            event is Frame && old(self)@.open ==> old(self)@.channels > 0,
        ensures
            final(self)@ == old(self)@.next(event@),
            final(self)@.wf(),
            reaction@ == old(self)@.reaction(event@),
    {
        proof {
            use_type_invariant(&*self);
        }
        if !self.open {
            return Reaction::Ignore;
        }
        match event {
            Inbound::Frame(frame) => {
                let channel = self.cursor;
                self.cursor = if channel + 1 < self.channels {
                    channel + 1
                } else {
                    0
                };
                let dropped = frame.dropped();
                match frame.parse() {
                    Ok(message) => Reaction::Dispatch { channel, task: message.into_task(), dropped },
                    Err(error) => Reaction::Discard { channel, error: PeerError::Metric(error) },
                }
            },
            Inbound::Failed(error) => {
                self.open = false;
                Reaction::Close { cause: Some(PeerError::Capnp(error)) }
            },
            Inbound::Closed => {
                self.open = false;
                Reaction::Close { cause: None }
            },
        }
    }
}

/// What the listening socket reports.
#[derive(Clone, Copy, Debug, PartialEq, Eq, Structural)]
pub enum Listener {
    /// A peer has connected.
    Incoming,
    /// The socket could not be bound, or accepting on it failed.
    Failed,
}

/// What the server does about its listening socket.
#[derive(Debug)]
pub enum Serve {
    /// Read frames from the new connection, with this state.
    Accept(Connection),
    /// Stop for good with this error.
    Stop(PeerError),
}

/// The server for inbound peer connections: the address it listens on and
/// the number of local worker channels that its connections feed.
#[derive(Debug)]
pub struct NativeProtocolServer<A> {
    listen: A,
    chans: usize,
}

impl<A: Copy> Clone for NativeProtocolServer<A> {
    fn clone(&self) -> (copy: Self)
        ensures
            copy.address() == self.address(),
            copy.channels() == self.channels(),
    {
        NativeProtocolServer { listen: self.listen, chans: self.chans }
    }
}

impl<A> NativeProtocolServer<A> {
    /// The address that the server listens on.
    pub closed spec fn address(&self) -> A {
        self.listen
    }

    /// The number of worker channels.
    pub closed spec fn channels(&self) -> nat {
        self.chans as nat
    }

    pub fn new(listen: A, chans: usize) -> (server: Self)
        ensures
            server.address() == listen,
            server.channels() == chans,
    {
        NativeProtocolServer { listen, chans }
    }

    /// The address that the server listens on.
    pub fn listen(&self) -> (listen: &A)
        ensures
            *listen == self.address(),
    {
        &self.listen
    }

    /// The number of worker channels.
    pub fn chans(&self) -> (chans: usize)
        ensures
            chans == self.channels(),
    {
        self.chans
    }

    /// Decides what a report of the listening socket leads to. Every peer
    /// that connects gets a connection of its own, whose rotation over the
    /// worker channels starts at the first channel whatever other
    /// connections have done. Only a failure of the socket itself ends the
    /// server.
    pub fn on_listener(&self, listener: Listener) -> (serve: Serve)
        ensures
            match listener {
                Listener::Incoming => serve matches Serve::Accept(connection) && connection@
                    == ConnectionModel::fresh(self.channels()) && connection@.wf(),
                Listener::Failed => serve matches Serve::Stop(error) && error == PeerError::Io,
            },
    {
        match listener {
            Listener::Incoming => Serve::Accept(Connection::new(self.chans)),
            Listener::Failed => Serve::Stop(PeerError::Io),
        }
    }
}

/// The state a connection reaches from `start` through `events`, and its
/// reactions to them, in order.
pub open spec fn replay<R>(start: ConnectionModel, events: Seq<InboundModel<R>>) -> (
    ConnectionModel,
    Seq<ReactionModel<R>>,
)
    decreases events.len(),
{
    if events.len() == 0 {
        (start, Seq::empty())
    } else {
        let before = replay(start, events.drop_last());
        (before.0.next(events.last()), before.1.push(before.0.reaction(events.last())))
    }
}

/// Every event is a frame.
pub open spec fn all_frames<R>(events: Seq<InboundModel<R>>) -> bool {
    forall|i: int| 0 <= i < events.len() ==> (#[trigger] events[i]) is Frame
}

/// Every event is a frame that carries a message.
pub open spec fn all_messages<R>(events: Seq<InboundModel<R>>) -> bool {
    forall|i: int|
        0 <= i < events.len() ==> (#[trigger] events[i] matches InboundModel::Frame(frame)
            && parse_spec(frame) is Ok)
}

/// The reaction sends a task to `channel`.
pub open spec fn is_dispatch_to<R>(reaction: ReactionModel<R>, channel: nat) -> bool {
    reaction matches ReactionModel::Dispatch { channel: c, .. } && c == channel
}

/// How many reactions of `log` send a task to `channel`.
pub open spec fn dispatches_to<R>(log: Seq<ReactionModel<R>>, channel: nat) -> nat {
    log.filter(|r: ReactionModel<R>| is_dispatch_to(r, channel)).len()
}

/// What falls to `channel` when `frames` frames are dealt to `channels`
/// channels in rotation, beginning with the first channel: the whole
/// quotient, and one more for the channels that come before the remainder.
pub open spec fn share(frames: nat, channels: nat, channel: nat) -> nat {
    (frames / channels + if channel < frames % channels {
        1nat
    } else {
        0nat
    }) as nat
}

proof fn lemma_successor_div_mod(n: int, k: int)
    requires
        n >= 0,
        k > 0,
    ensures
        n % k + 1 < k ==> (n + 1) % k == n % k + 1 && (n + 1) / k == n / k,
        n % k + 1 >= k ==> (n + 1) % k == 0 && (n + 1) / k == n / k + 1,
        0 <= n % k < k,
        0 <= n / k,
{
    let q = n / k;
    let r = n % k;
    lemma_fundamental_div_mod(n, k);
    assert(n == q * k + r) by (nonlinear_arith)
        requires
            n == k * q + r,
    ;
    assert(0 <= q) by (nonlinear_arith)
        requires
            n == q * k + r,
            0 <= r < k,
            n >= 0,
            k > 0,
    ;
    if r + 1 < k {
        lemma_fundamental_div_mod_converse(n + 1, k, q, r + 1);
    } else {
        assert(n + 1 == (q + 1) * k + 0) by (nonlinear_arith)
            requires
                n == q * k + r,
                r + 1 == k,
        ;
        lemma_fundamental_div_mod_converse(n + 1, k, q + 1, 0);
    }
}

/// The next frame raises the share of the channel under the cursor by one
/// and leaves every other share as it was.
pub proof fn lemma_share_step(frames: nat, channels: nat, channel: nat)
    requires
        channels > 0,
        channel < channels,
    ensures
        share(frames + 1, channels, channel) == share(frames, channels, channel) + if frames
            % channels == channel {
            1nat
        } else {
            0nat
        },
{
    lemma_successor_div_mod(frames as int, channels as int);
}

/// Shares differ by one at most: each is the quotient of frames by
/// channels, or one more.
pub proof fn lemma_share_bounds(frames: nat, channels: nat, channel: nat)
    requires
        channels > 0,
        channel < channels,
    ensures
        frames / channels <= share(frames, channels, channel) <= frames / channels + 1,
{
    lemma_successor_div_mod(frames as int, channels as int);
}

/// Frames are dealt in rotation. A connection that has delivered `i` frames
/// and nothing else hands the next frame to channel `i` modulo the number of
/// channels, and reacts to it as a fresh connection with its cursor there
/// would: so each channel gets its frames in the order of their arrival.
pub proof fn lemma_rotation<R>(channels: nat, events: Seq<InboundModel<R>>)
    requires
        channels > 0,
        all_frames(events),
    ensures
        replay(ConnectionModel::fresh(channels), events).0 == (ConnectionModel {
            channels,
            cursor: (events.len() % channels) as nat,
            open: true,
        }),
        replay(ConnectionModel::fresh(channels), events).1.len() == events.len(),
        forall|i: int|
            0 <= i < events.len() ==> (#[trigger] replay(
                ConnectionModel::fresh(channels),
                events,
            ).1[i]) == (ConnectionModel {
                channels,
                cursor: (i % (channels as int)) as nat,
                open: true,
            }).reaction(events[i]),
    decreases events.len(),
{
    if events.len() == 0 {
        lemma_successor_div_mod(0, channels as int);
        assert(0nat % channels == 0) by {
            lemma_fundamental_div_mod_converse(0, channels as int, 0, 0);
        }
    } else {
        let rest = events.drop_last();
        assert(all_frames(rest));
        lemma_rotation(channels, rest);
        lemma_successor_div_mod(rest.len() as int, channels as int);
        let before = replay(ConnectionModel::fresh(channels), rest);
        let after = replay(ConnectionModel::fresh(channels), events);
        assert forall|i: int| 0 <= i < events.len() implies (#[trigger] after.1[i])
            == (ConnectionModel {
            channels,
            cursor: (i % (channels as int)) as nat,
            open: true,
        }).reaction(events[i]) by {
            if i < rest.len() {
                assert(after.1[i] == before.1[i]);
            }
        }
    }
}

/// Frames are dealt fairly. Of a connection's frames, where each carries a
/// message, every channel gets its share: the quotient of frames by
/// channels, and one more for the channels before the remainder.
pub proof fn lemma_fair_shares<R>(channels: nat, events: Seq<InboundModel<R>>, channel: nat)
    requires
        channels > 0,
        channel < channels,
        all_messages(events),
    ensures
        dispatches_to(replay(ConnectionModel::fresh(channels), events).1, channel) == share(
            events.len(),
            channels,
            channel,
        ),
    decreases events.len(),
{
    let pred = |r: ReactionModel<R>| is_dispatch_to(r, channel);
    if events.len() == 0 {
        lemma_successor_div_mod(0, channels as int);
        assert(0nat % channels == 0 && 0nat / channels == 0) by {
            lemma_fundamental_div_mod_converse(0, channels as int, 0, 0);
        }
    } else {
        let rest = events.drop_last();
        assert(all_messages(rest));
        assert(all_frames(rest));
        lemma_fair_shares(channels, rest, channel);
        lemma_rotation(channels, rest);
        lemma_share_step(rest.len(), channels, channel);
        let before = replay(ConnectionModel::fresh(channels), rest);
        let last = before.0.reaction(events.last());
        before.1.lemma_filter_push(last, pred);
    }
}

/// A closed connection stays closed: whatever arrives, nothing is done
/// about it. So after a frame was refused no later frame of that connection
/// reaches a worker.
pub proof fn lemma_closed_is_final<R>(start: ConnectionModel, events: Seq<InboundModel<R>>)
    requires
        !start.open,
    ensures
        replay(start, events).0 == start,
        replay(start, events).1.len() == events.len(),
        forall|i: int|
            0 <= i < events.len() ==> (#[trigger] replay(start, events).1[i]) is Ignore,
    decreases events.len(),
{
    if events.len() > 0 {
        lemma_closed_is_final(start, events.drop_last());
    }
}

/// A frame that the codec refuses ends its connection. The connection is
/// closed with the codec's error, the frame reaches no worker, and neither
/// does anything that the peer sends after it: there is no way back into
/// the stream.
pub proof fn lemma_refused_frame_ends_connection<R>(
    connection: ConnectionModel,
    error: ProtocolError,
    later: Seq<InboundModel<R>>,
)
    requires
        connection.open,
    ensures
        connection.reaction(InboundModel::<R>::Failed(error)) == (ReactionModel::<R>::Close {
            cause: Some(PeerError::Capnp(error)),
        }),
        !connection.next(InboundModel::<R>::Failed(error)).open,
        forall|i: int|
            0 <= i < later.len() ==> (#[trigger] replay(
                connection.next(InboundModel::<R>::Failed(error)),
                later,
            ).1[i]) is Ignore,
{
    lemma_closed_is_final(connection.next(InboundModel::<R>::Failed(error)), later);
}

} // verus!
