//! The wire envelope and the tasks that inbound frames become.

use vstd::prelude::*;

verus! {

/// One metric update: the metric's name, an arbitrary byte string, and its
/// aggregated record.
pub type Entry<R> = (Vec<u8>, R);

/// The value of an [`Entry`]: the bytes of the name and the record.
pub type EntryModel<R> = (Seq<u8>, R);

pub open spec fn entry_model<R>(entry: Entry<R>) -> EntryModel<R> {
    (entry.0@, entry.1)
}

pub open spec fn entries_model<R>(entries: Seq<Entry<R>>) -> Seq<EntryModel<R>> {
    entries.map_values(|e: Entry<R>| entry_model(e))
}

/// The envelope that one frame carries.
#[derive(Debug, PartialEq)]
pub enum PeerMessage<R> {
    /// One metric update.
    Single(Vec<u8>, R),
    /// A batch of independent updates.
    Multi(Vec<Entry<R>>),
    /// Everything one worker of the sending node has aggregated.
    Snapshot(Vec<Entry<R>>),
}

pub enum MessageModel<R> {
    Single(Seq<u8>, R),
    Multi(Seq<EntryModel<R>>),
    Snapshot(Seq<EntryModel<R>>),
}

impl<R> View for PeerMessage<R> {
    type V = MessageModel<R>;

    open spec fn view(&self) -> MessageModel<R> {
        match *self {
            PeerMessage::Single(name, record) => MessageModel::Single(name@, record),
            PeerMessage::Multi(entries) => MessageModel::Multi(entries_model(entries@)),
            PeerMessage::Snapshot(entries) => MessageModel::Snapshot(entries_model(entries@)),
        }
    }
}

/// A unit of work for a local aggregation worker.
#[derive(Debug, PartialEq)]
pub enum Task<R> {
    AddMetric(Vec<u8>, R),
    AddMetrics(Vec<Entry<R>>),
    AddSnapshot(Vec<Entry<R>>),
    /// Asks the worker for a copy of its state; the reply channel is
    /// attached by whoever delivers the task.
    TakeSnapshot,
}

pub enum TaskModel<R> {
    AddMetric(Seq<u8>, R),
    AddMetrics(Seq<EntryModel<R>>),
    AddSnapshot(Seq<EntryModel<R>>),
    TakeSnapshot,
}

impl<R> View for Task<R> {
    type V = TaskModel<R>;

    open spec fn view(&self) -> TaskModel<R> {
        match *self {
            Task::AddMetric(name, record) => TaskModel::AddMetric(name@, record),
            Task::AddMetrics(entries) => TaskModel::AddMetrics(entries_model(entries@)),
            Task::AddSnapshot(entries) => TaskModel::AddSnapshot(entries_model(entries@)),
            Task::TakeSnapshot => TaskModel::TakeSnapshot,
        }
    }
}

/// The task that a message is turned into when it arrives.
pub open spec fn task_of<R>(message: MessageModel<R>) -> TaskModel<R> {
    match message {
        MessageModel::Single(name, record) => TaskModel::AddMetric(name, record),
        MessageModel::Multi(entries) => TaskModel::AddMetrics(entries),
        MessageModel::Snapshot(entries) => TaskModel::AddSnapshot(entries),
    }
}

impl<R> PeerMessage<R> {
    /// Turns the message into the task for a worker: a single update is
    /// added, a batch is added as a batch, a snapshot is merged as a
    /// snapshot, each with the entries of the message in their order.
    pub fn into_task(self) -> (task: Task<R>)
        ensures
            task@ == task_of(self@),
    {
        match self {
            PeerMessage::Single(name, record) => Task::AddMetric(name, record),
            PeerMessage::Multi(entries) => Task::AddMetrics(entries),
            PeerMessage::Snapshot(entries) => Task::AddSnapshot(entries),
        }
    }
}

} // verus!
