//! The errors of the peer protocol.

use vstd::prelude::*;

verus! {

/// Why a single metric record inside a frame could not be decoded.
#[derive(Clone, Copy, Debug, PartialEq, Eq, Structural)]
pub enum RecordError {
    /// The bytes of the record are not a valid encoding.
    Capnp,
    /// The record, or the frame's envelope, uses a variant with this
    /// discriminant, which the schema does not know.
    CapnpSchema(u16),
}

/// Why the codec could not read or write a frame.
#[derive(Clone, Copy, Debug, PartialEq, Eq, Structural)]
pub enum ProtocolError {
    /// The frame is not a well-formed message.
    Malformed,
    /// The frame holds more words than the traversal limit allows.
    TooLarge,
    /// The frame nests deeper than the nesting limit allows.
    TooDeep,
    /// The stream under the codec is gone or overloaded.
    Broken,
}

/// Everything that can go wrong between peers.
#[derive(Clone, Copy, Debug, PartialEq, Eq, Structural)]
pub enum PeerError {
    /// Connecting, binding, reading or writing failed.
    Io,
    /// The timer that paces the snapshot rounds failed.
    Timer,
    /// A local worker is gone: a task or its reply could not be delivered.
    TaskSend,
    /// A peer sent a message that cannot be taken.
    BadMessage,
    /// A command is not known.
    BadCommand,
    /// A response could not be sent.
    Response,
    /// A frame could not be decoded or encoded.
    Capnp(ProtocolError),
    /// A frame's envelope uses a variant with this discriminant, unknown to
    /// the schema.
    CapnpSchema(u16),
    /// A metric record could not be decoded.
    Metric(RecordError),
}

impl PeerError {
    /// The text that describes this kind of error, without its detail.
    pub open spec fn spec_description(self) -> Seq<char> {
        match self {
            PeerError::Io => "I/O error"@,
            PeerError::Timer => "Error when creating timer"@,
            PeerError::TaskSend => "error sending task to worker thread"@,
            PeerError::BadMessage => "server received incorrect message"@,
            PeerError::BadCommand => "bad command"@,
            PeerError::Response => "response not sent"@,
            PeerError::Capnp(_) => "decoding capnp failed"@,
            PeerError::CapnpSchema(_) => "decoding capnp schema failed"@,
            PeerError::Metric(_) => "decoding metric failed"@,
        }
    }

    /// A short description of the kind of error.
    pub fn description(&self) -> (text: &'static str)
        ensures
            text@ == self.spec_description(),
    {
        match self {
            PeerError::Io => "I/O error",
            PeerError::Timer => "Error when creating timer",
            PeerError::TaskSend => "error sending task to worker thread",
            PeerError::BadMessage => "server received incorrect message",
            PeerError::BadCommand => "bad command",
            PeerError::Response => "response not sent",
            PeerError::Capnp(_) => "decoding capnp failed",
            PeerError::CapnpSchema(_) => "decoding capnp schema failed",
            PeerError::Metric(_) => "decoding metric failed",
        }
    }

    /// Whether the component that meets this error must stop for good.
    /// Only a failing timer is fatal; every other error is confined to the
    /// connection, the peer or the round in which it occurred.
    pub open spec fn spec_is_fatal(&self) -> bool {
        *self is Timer
    }

    #[verifier::when_used_as_spec(spec_is_fatal)]
    pub fn is_fatal(&self) -> (fatal: bool)
        ensures
            fatal == self.spec_is_fatal(),
    {
        match self {
            PeerError::Timer => true,
            _ => false,
        }
    }
}

} // verus!
