//! What the protocol needs to know of the Cap'n Proto codec: the limits it
//! works under and the meaning of its errors.
//!
//! Frames come from the network, so the codec is told how much of a message
//! it may walk through and how deep a message may nest before it refuses the
//! frame. The limits are ceilings for safety, far above any honest frame.

use capnp::message::ReaderOptions;
use capnp::{Error, ErrorKind, NotInSchema};
use vstd::prelude::*;
use crate::error::{ProtocolError, RecordError};

verus! {

/// The options of the reader, declared with their fields: the most words
/// that reading one message may traverse, and the deepest nesting that a
/// message may have.
#[verifier::external_type_specification]
pub struct ExReaderOptions(capnp::message::ReaderOptions);

/// The kinds of error of the codec, declared with their variants.
#[verifier::external_type_specification]
pub struct ExErrorKind(capnp::ErrorKind);

/// The error of the codec, declared with its fields: a kind and a
/// description in words.
#[verifier::external_type_specification]
pub struct ExError(capnp::Error);

/// The codec's error for a discriminant that the schema does not know,
/// declared with its field, the discriminant.
#[verifier::external_type_specification]
pub struct ExNotInSchema(capnp::NotInSchema);

/// The most words that reading one frame may traverse.
pub const TRAVERSAL_LIMIT_IN_WORDS: u64 = 8 * 1024 * 1024 * 1024;

/// The deepest nesting that a frame may have.
pub const NESTING_LIMIT: i32 = 16;

/// The options that every frame is read and written with.
pub fn reader_options() -> (options: ReaderOptions)
    ensures
        options.traversal_limit_in_words == TRAVERSAL_LIMIT_IN_WORDS,
        options.nesting_limit == NESTING_LIMIT,
{
    ReaderOptions { traversal_limit_in_words: TRAVERSAL_LIMIT_IN_WORDS, nesting_limit: NESTING_LIMIT }
}

/// `pattern` stands somewhere in `text`.
pub open spec fn occurs_in(pattern: Seq<char>, text: Seq<char>) -> bool {
    exists|start: int, end: int|
        0 <= start && end == start + pattern.len() && end <= text.len() && #[trigger] text.subrange(
            start,
            end,
        ) == pattern
}

/// `str::contains` of the standard library, with a string as the pattern.
/// It is trusted to say whether the pattern matches a part of the text.
#[verifier::external_body]
fn contains(text: &str, pattern: &str) -> (found: bool)
    ensures
        found == occurs_in(pattern@, text@),
{
    text.contains(pattern)
}

/// The description speaks of a message beyond the traversal limit.
pub open spec fn speaks_of_size(description: Seq<char>) -> bool {
    occurs_in("too large"@, description) || occurs_in("read limit exceeded"@, description)
}

/// The description speaks of a message beyond the nesting limit.
pub open spec fn speaks_of_depth(description: Seq<char>) -> bool {
    occurs_in("too deeply"@, description) || occurs_in("nesting limit exceeded"@, description)
}

/// What an error of the codec means to the protocol.
///
/// An error of the kinds for lost connections and for exhausted resources
/// is a broken stream. Any other is a refused frame; the codec tells the
/// limits apart only in the words of its description, so a description
/// that speaks of size means a frame beyond the traversal limit, one that
/// speaks of depth a frame beyond the nesting limit, and every other a
/// malformed frame.
pub open spec fn protocol_error_spec(kind: ErrorKind, description: Seq<char>) -> ProtocolError {
    match kind {
        ErrorKind::Disconnected => ProtocolError::Broken,
        ErrorKind::Overloaded => ProtocolError::Broken,
        _ => if speaks_of_size(description) {
            ProtocolError::TooLarge
        } else if speaks_of_depth(description) {
            ProtocolError::TooDeep
        } else {
            ProtocolError::Malformed
        },
    }
}

/// Says what an error of the codec means to the protocol.
pub fn protocol_error(error: &Error) -> (fault: ProtocolError)
    ensures
        fault == protocol_error_spec(error.kind, error.description@),
{
    match error.kind {
        ErrorKind::Disconnected => ProtocolError::Broken,
        ErrorKind::Overloaded => ProtocolError::Broken,
        _ => {
            let description = error.description.as_str();
            if contains(description, "too large") || contains(description, "read limit exceeded") {
                ProtocolError::TooLarge
            } else if contains(description, "too deeply") || contains(
                description,
                "nesting limit exceeded",
            ) {
                ProtocolError::TooDeep
            } else {
                ProtocolError::Malformed
            }
        },
    }
}

/// The record error for a discriminant that the schema does not know.
pub fn schema_error(error: NotInSchema) -> (fault: RecordError)
    ensures
        fault == RecordError::CapnpSchema(error.0),
{
    RecordError::CapnpSchema(error.0)
}

} // verus!
