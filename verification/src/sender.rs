//! The sender of one snapshot to one peer.
//!
//! A sender opens a connection to its peer, from a given local address
//! where one is set, writes the whole snapshot as a single frame and lets
//! the connection go. Whatever goes wrong on the way is one failed attempt.

use std::sync::Arc;
use vstd::prelude::*;
use crate::error::{PeerError, ProtocolError};
use crate::message::{entry_model, Entry};
use crate::snapshot::LocalSnapshot;

verus! {

/// Where a snapshot goes: the peer's address, and the local address to
/// connect from, if the connection is to leave from a particular one.
#[derive(Debug, PartialEq, Eq)]
pub struct SnapshotClientOptions<A> {
    pub address: A,
    pub bind: Option<A>,
}

impl<A: Copy> Clone for SnapshotClientOptions<A> {
    fn clone(&self) -> (copy: Self)
        ensures
            copy == *self,
    {
        *self
    }
}

impl<A: Copy> Copy for SnapshotClientOptions<A> {

}

/// How the connection to the peer is to be opened.
#[derive(Debug, PartialEq, Eq)]
pub enum Connect<A> {
    /// Connect to `address` from wherever the system chooses.
    Direct { address: A },
    /// Bind a socket to `bind`, then connect it to `address`.
    Bound { bind: A, address: A },
}

impl<A: Copy> Clone for Connect<A> {
    fn clone(&self) -> (copy: Self)
        ensures
            copy == *self,
    {
        *self
    }
}

impl<A: Copy> Copy for Connect<A> {

}

/// How an attempt to deliver the snapshot ended.
#[derive(Clone, Copy, Debug, PartialEq, Eq, Structural)]
pub enum Delivery {
    /// The local address could not be bound.
    BindFailed,
    /// The peer could not be reached.
    ConnectFailed,
    /// The frame could not be encoded or written.
    WriteFailed(ProtocolError),
    /// The frame was written.
    Written,
}

/// The result of an attempt that ended in `delivery`: success for a frame
/// that was written, an I/O error where the connection could not be had,
/// and the codec's error where the frame could not be written.
pub open spec fn delivery_result(delivery: Delivery) -> Result<(), PeerError> {
    match delivery {
        Delivery::BindFailed => Err(PeerError::Io),
        Delivery::ConnectFailed => Err(PeerError::Io),
        Delivery::WriteFailed(error) => Err(PeerError::Capnp(error)),
        Delivery::Written => Ok(()),
    }
}

/// What an attempt that ended in `delivery` adds to the count of peer
/// errors: one for every attempt that failed.
pub open spec fn delivery_errors(delivery: Delivery) -> nat {
    if delivery is Written {
        0
    } else {
        1
    }
}

impl Delivery {
    /// What the attempt comes to, and what it adds to the count of peer
    /// errors.
    pub fn conclude(self) -> (concluded: (Result<(), PeerError>, usize))
        ensures
            concluded.0 == delivery_result(self),
            concluded.1 == delivery_errors(self),
    {
        match self {
            Delivery::BindFailed => (Err(PeerError::Io), 1),
            Delivery::ConnectFailed => (Err(PeerError::Io), 1),
            Delivery::WriteFailed(error) => (Err(PeerError::Capnp(error)), 1),
            Delivery::Written => (Ok(()), 0),
        }
    }
}

/// The largest number of entries that one frame can announce.
pub const MAX_FRAME_ENTRIES: usize = 0xffff_ffff;

/// `Arc::clone` of the standard library. It is trusted to return a handle to
/// the very value that `shared` points to.
#[verifier::external_body]
pub(crate) fn share<T>(shared: &Arc<T>) -> (other: Arc<T>)
    ensures
        *other == **shared,
{
    Arc::clone(shared)
}

/// Sends one snapshot to one peer.
#[derive(Debug)]
pub struct SnapshotSender<A, R> {
    metrics: Arc<LocalSnapshot<R>>,
    options: SnapshotClientOptions<A>,
}

impl<A: Copy, R> Clone for SnapshotSender<A, R> {
    /// Another sender of the same snapshot to the same peer. The snapshot
    /// is shared, not copied.
    fn clone(&self) -> (copy: Self)
        ensures
            copy.snapshot() == self.snapshot(),
            copy.target() == self.target(),
    {
        SnapshotSender { metrics: share(&self.metrics), options: self.options }
    }
}

impl<A, R> SnapshotSender<A, R> {
    /// The snapshot that is sent.
    pub closed spec fn snapshot(&self) -> LocalSnapshot<R> {
        *self.metrics
    }

    /// Where it is sent.
    pub closed spec fn target(&self) -> SnapshotClientOptions<A> {
        self.options
    }

    pub fn new(metrics: Arc<LocalSnapshot<R>>, options: SnapshotClientOptions<A>) -> (sender: Self)
        ensures
            sender.snapshot() == *metrics,
            sender.target() == options,
    {
        SnapshotSender { metrics, options }
    }

    /// The snapshot that is sent.
    pub fn metrics(&self) -> (metrics: &LocalSnapshot<R>)
        ensures
            *metrics == self.snapshot(),
    {
        &self.metrics
    }

    /// The entries of the one frame that is sent: all entries of the
    /// snapshot, shard after shard, each shard in its own order.
    ///
    /// Fails, with the codec's error for a message that is too large, exactly
    /// when there are more entries than a frame can announce.
    pub fn frame(&self) -> (frame: Result<Vec<&Entry<R>>, PeerError>)
        ensures
            match frame {
                Ok(entries) => {
                    &&& entries@.map_values(|entry: &Entry<R>| entry_model(*entry))
                        == self.snapshot()@.flatten()
                    &&& entries@.len() <= MAX_FRAME_ENTRIES
                },
                Err(error) => {
                    &&& error == PeerError::Capnp(ProtocolError::TooLarge)
                    &&& self.snapshot()@.flatten().len() > MAX_FRAME_ENTRIES
                },
            },
    {
        let entries = self.metrics.entries();
        if entries.len() <= MAX_FRAME_ENTRIES {
            Ok(entries)
        } else {
            Err(PeerError::Capnp(ProtocolError::TooLarge))
        }
    }

    /// What the attempt that ended in `delivery` comes to, and what it adds
    /// to the count of peer errors.
    pub fn conclude(&self, delivery: Delivery) -> (concluded: (Result<(), PeerError>, usize))
        ensures
            concluded.0 == delivery_result(delivery),
            concluded.1 == delivery_errors(delivery),
    {
        delivery.conclude()
    }
}

impl<A: Copy, R> SnapshotSender<A, R> {
    /// Where the snapshot goes.
    pub fn options(&self) -> (options: SnapshotClientOptions<A>)
        ensures
            options == self.target(),
    {
        self.options
    }

    /// How to open the connection: bound to the local address if one is
    /// set, directly otherwise.
    pub fn connect(&self) -> (plan: Connect<A>)
        ensures
            plan == match self.target().bind {
                Some(bind) => Connect::Bound { bind, address: self.target().address },
                None => Connect::Direct { address: self.target().address },
            },
    {
        match self.options.bind {
            Some(bind) => Connect::Bound { bind, address: self.options.address },
            None => Connect::Direct { address: self.options.address },
        }
    }
}

} // verus!
