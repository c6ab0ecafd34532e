//! From what the codec reports of a frame to the message the frame carries.
//!
//! The codec opens a frame's envelope and decodes its records one by one. A
//! record that fails to decode does not spoil the frame: in a batch or a
//! snapshot it is left out and the rest is kept, in order.

use vstd::prelude::*;
use crate::error::RecordError;
use crate::message::{entries_model, entry_model, Entry, EntryModel, MessageModel, PeerMessage};

verus! {

/// The outcome of decoding one record of a frame.
pub type Decoded<R> = Result<Entry<R>, RecordError>;

pub type DecodedModel<R> = Result<EntryModel<R>, RecordError>;

pub open spec fn decoded_model<R>(decoded: Decoded<R>) -> DecodedModel<R> {
    match decoded {
        Ok(entry) => Ok(entry_model(entry)),
        Err(error) => Err(error),
    }
}

pub open spec fn records_model<R>(records: Seq<Decoded<R>>) -> Seq<DecodedModel<R>> {
    records.map_values(|d: Decoded<R>| decoded_model(d))
}

/// What the codec reports of one frame that it could read to its end.
#[derive(Debug, PartialEq)]
pub enum Frame<R> {
    /// The envelope holds one record.
    Single(Decoded<R>),
    /// The envelope holds a batch, with the outcome for each record in the
    /// order of the wire.
    Multi(Vec<Decoded<R>>),
    /// The envelope holds a snapshot, with the outcome for each record in
    /// the order of the wire.
    Snapshot(Vec<Decoded<R>>),
    /// The envelope itself could not be understood.
    Invalid(RecordError),
}

pub enum FrameModel<R> {
    Single(DecodedModel<R>),
    Multi(Seq<DecodedModel<R>>),
    Snapshot(Seq<DecodedModel<R>>),
    Invalid(RecordError),
}

impl<R> View for Frame<R> {
    type V = FrameModel<R>;

    open spec fn view(&self) -> FrameModel<R> {
        match *self {
            Frame::Single(decoded) => FrameModel::Single(decoded_model(decoded)),
            Frame::Multi(records) => FrameModel::Multi(records_model(records@)),
            Frame::Snapshot(records) => FrameModel::Snapshot(records_model(records@)),
            Frame::Invalid(error) => FrameModel::Invalid(error),
        }
    }
}

/// The entry of a record that decoded, nothing for one that did not.
pub open spec fn decoded_entry<R>(decoded: DecodedModel<R>) -> Option<EntryModel<R>> {
    match decoded {
        Ok(entry) => Some(entry),
        Err(_) => None,
    }
}

/// The records that decoded, in their order.
pub open spec fn accepted<R>(records: Seq<DecodedModel<R>>) -> Seq<EntryModel<R>> {
    records.filter_map(|d: DecodedModel<R>| decoded_entry(d))
}

/// How many records did not decode.
pub open spec fn rejected<R>(records: Seq<DecodedModel<R>>) -> nat {
    records.filter(|d: DecodedModel<R>| d is Err).len()
}

/// The message a frame carries, or the error for which it carries none.
///
/// A frame with one record is that record's update, or that record's
/// error. A batch or a snapshot always yields a message, made of the records
/// that decoded. A frame whose envelope is invalid yields the envelope's
/// error.
pub open spec fn parse_spec<R>(frame: FrameModel<R>) -> Result<MessageModel<R>, RecordError> {
    match frame {
        FrameModel::Single(Ok(entry)) => Ok(MessageModel::Single(entry.0, entry.1)),
        FrameModel::Single(Err(error)) => Err(error),
        FrameModel::Multi(records) => Ok(MessageModel::Multi(accepted(records))),
        FrameModel::Snapshot(records) => Ok(MessageModel::Snapshot(accepted(records))),
        FrameModel::Invalid(error) => Err(error),
    }
}

/// How many records of a frame are dropped on the way to its message.
pub open spec fn dropped_spec<R>(frame: FrameModel<R>) -> nat {
    match frame {
        FrameModel::Single(Ok(_)) => 0,
        FrameModel::Single(Err(_)) => 1,
        FrameModel::Multi(records) => rejected(records),
        FrameModel::Snapshot(records) => rejected(records),
        FrameModel::Invalid(_) => 0,
    }
}

/// Keeps the records that decoded, in their order.
fn keep_accepted<R>(records: Vec<Decoded<R>>) -> (kept: Vec<Entry<R>>)
    ensures
        entries_model(kept@) == accepted(records_model(records@)),
{
    let ghost all = records_model(records@);
    let mut kept: Vec<Entry<R>> = Vec::new();
    for decoded in it: records
        invariant
            all == records_model(it.seq()),
            entries_model(kept@) == accepted(all.take(it.index() as int)),
    {
        proof {
            all.lemma_filter_map_take_succ(|d: DecodedModel<R>| decoded_entry(d), it.index() as int);
        }
        match decoded {
            Ok(entry) => {
                kept.push(entry);
            },
            Err(_) => {},
        }
    }
    proof {
        assert(all.take(all.len() as int) == all);
    }
    kept
}

/// Counts the records that did not decode.
fn count_rejected<R>(records: &Vec<Decoded<R>>) -> (count: usize)
    ensures
        count == rejected(records_model(records@)),
{
    let ghost all = records_model(records@);
    let mut count: usize = 0;
    let mut i: usize = 0;
    while i < records.len()
        invariant
            i <= records.len(),
            all == records_model(records@),
            count == rejected(all.take(i as int)),
            count <= i,
        decreases records.len() - i,
    {
        proof {
            assert(all.take(i as int + 1) == all.take(i as int).push(all[i as int]));
            all.take(i as int).lemma_filter_push(all[i as int], |d: DecodedModel<R>| d is Err);
        }
        if records[i].is_err() {
            count = count + 1;
        }
        i = i + 1;
    }
    proof {
        assert(all.take(all.len() as int) == all);
    }
    count
}

impl<R> Frame<R> {
    /// The number of records of this frame that did not decode.
    pub fn dropped(&self) -> (count: usize)
        ensures
            count == dropped_spec(self@),
    {
        match self {
            Frame::Single(Ok(_)) => 0,
            Frame::Single(Err(_)) => 1,
            Frame::Multi(records) => count_rejected(records),
            Frame::Snapshot(records) => count_rejected(records),
            Frame::Invalid(_) => 0,
        }
    }

    /// Turns the frame into the message it carries.
    ///
    /// Fails exactly when the frame has a single record that did not decode,
    /// or an invalid envelope, with that error. Records of a batch or of a
    /// snapshot that did not decode are left out of the message.
    pub fn parse(self) -> (parsed: Result<PeerMessage<R>, RecordError>)
        ensures
            match parsed {
                Ok(message) => parse_spec(self@) == Ok::<MessageModel<R>, RecordError>(message@),
                Err(error) => parse_spec(self@) == Err::<MessageModel<R>, RecordError>(error),
            },
    {
        match self {
            Frame::Single(Ok(entry)) => Ok(PeerMessage::Single(entry.0, entry.1)),
            Frame::Single(Err(error)) => Err(error),
            Frame::Multi(records) => Ok(PeerMessage::Multi(keep_accepted(records))),
            Frame::Snapshot(records) => Ok(PeerMessage::Snapshot(keep_accepted(records))),
            Frame::Invalid(error) => Err(error),
        }
    }
}

/// What the codec reports of a message that arrives whole: its envelope,
/// with every record decoded.
pub open spec fn clean_frame<R>(message: MessageModel<R>) -> FrameModel<R> {
    match message {
        MessageModel::Single(name, record) => FrameModel::Single(Ok((name, record))),
        MessageModel::Multi(entries) => FrameModel::Multi(
            entries.map_values(|e: EntryModel<R>| Ok::<EntryModel<R>, RecordError>(e)),
        ),
        MessageModel::Snapshot(entries) => FrameModel::Snapshot(
            entries.map_values(|e: EntryModel<R>| Ok::<EntryModel<R>, RecordError>(e)),
        ),
    }
}

proof fn lemma_all_decoded<R>(entries: Seq<EntryModel<R>>)
    ensures
        accepted(entries.map_values(|e: EntryModel<R>| Ok::<EntryModel<R>, RecordError>(e)))
            == entries,
        rejected(entries.map_values(|e: EntryModel<R>| Ok::<EntryModel<R>, RecordError>(e))) == 0,
    decreases entries.len(),
{
    let wrap = |e: EntryModel<R>| Ok::<EntryModel<R>, RecordError>(e);
    let records = entries.map_values(wrap);
    let failed = |d: DecodedModel<R>| d is Err;
    if entries.len() > 0 {
        lemma_all_decoded(entries.drop_last());
        assert(records.drop_last() =~= entries.drop_last().map_values(wrap));
        assert(records =~= records.drop_last().push(records.last()));
        records.drop_last().lemma_filter_push(records.last(), failed);
    }
}

/// What is sent is what arrives. If the codec decodes every record of a
/// message, the frame carries that very message: the same variant with the
/// same entries in the same order, be they none, and nothing is dropped.
pub proof fn lemma_clean_frame_carries_its_message<R>(message: MessageModel<R>)
    ensures
        parse_spec(clean_frame(message)) == Ok::<MessageModel<R>, RecordError>(message),
        dropped_spec(clean_frame(message)) == 0,
{
    match message {
        MessageModel::Single(name, record) => {},
        MessageModel::Multi(entries) => {
            lemma_all_decoded(entries);
        },
        MessageModel::Snapshot(entries) => {
            lemma_all_decoded(entries);
        },
    }
}

/// Every record of a batch is either kept or counted as dropped: those that
/// decoded and those that did not are together as many as came.
pub proof fn lemma_kept_or_dropped<R>(records: Seq<DecodedModel<R>>)
    ensures
        accepted(records).len() + rejected(records) == records.len(),
    decreases records.len(),
{
    if records.len() > 0 {
        let rest = records.drop_last();
        lemma_kept_or_dropped(rest);
        assert(records =~= rest.push(records.last()));
        rest.lemma_filter_push(records.last(), |d: DecodedModel<R>| d is Err);
    }
}

} // verus!
