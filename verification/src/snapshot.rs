//! The snapshot that one round sends to the peers.
//!
//! A snapshot is what the local workers held at one tick: one shard for
//! every worker that held anything, in the order of the workers. It goes to
//! every peer as one sequence of entries, shard after shard.

use vstd::prelude::*;
use crate::message::{entries_model, entry_model, Entry, EntryModel};

verus! {

/// What one worker holds: its entries, in the order in which it gave them.
pub type ShardModel<R> = Seq<EntryModel<R>>;

pub open spec fn shards_model<R>(shards: Seq<Vec<Entry<R>>>) -> Seq<ShardModel<R>> {
    shards.map_values(|shard: Vec<Entry<R>>| entries_model(shard@))
}

/// The shards that hold something, in their order.
pub open spec fn nonempty<R>(shards: Seq<ShardModel<R>>) -> Seq<ShardModel<R>> {
    shards.filter(|shard: ShardModel<R>| shard.len() > 0)
}

/// The state of all local workers at one tick. It is built once and then
/// only read: every peer is sent the same entries.
#[derive(Debug, PartialEq)]
pub struct LocalSnapshot<R> {
    shards: Vec<Vec<Entry<R>>>,
}

impl<R> View for LocalSnapshot<R> {
    type V = Seq<ShardModel<R>>;

    closed spec fn view(&self) -> Seq<ShardModel<R>> {
        shards_model(self.shards@)
    }
}

impl<R> LocalSnapshot<R> {
    /// No shard of a snapshot is empty.
    pub open spec fn wf(&self) -> bool {
        forall|i: int| 0 <= i < self@.len() ==> (#[trigger] self@[i]).len() > 0
    }

    #[verifier::type_invariant]
    closed spec fn well_formed(&self) -> bool {
        self.wf()
    }

    /// Builds the snapshot of the given per-worker states: those that hold
    /// at least one entry, in their order.
    pub fn new(shards: Vec<Vec<Entry<R>>>) -> (snapshot: LocalSnapshot<R>)
        ensures
            snapshot@ == nonempty(shards_model(shards@)),
            snapshot.wf(),
    {
        let ghost all = shards_model(shards@);
        let ghost holds = |shard: ShardModel<R>| shard.len() > 0;
        let mut kept: Vec<Vec<Entry<R>>> = Vec::new();
        for shard in it: shards
            invariant
                all == shards_model(it.seq()),
                holds == |shard: ShardModel<R>| shard.len() > 0,
                shards_model(kept@) == all.take(it.index() as int).filter(holds),
        {
            proof {
                let i = it.index() as int;
                assert(all.take(i + 1) == all.take(i).push(all[i]));
                all.take(i).lemma_filter_push(all[i], holds);
            }
            if shard.len() > 0 {
                kept.push(shard);
            }
        }
        proof {
            assert(all.take(all.len() as int) == all);
            assert forall|i: int| 0 <= i < all.filter(holds).len() implies (#[trigger] all.filter(
                holds,
            )[i]).len() > 0 by {
                all.lemma_filter_pred(holds, i);
            }
        }
        LocalSnapshot { shards: kept }
    }

    /// The number of shards, none of which is empty.
    pub fn shard_count(&self) -> (count: usize)
        ensures
            count == self@.len(),
            self.wf(),
    {
        proof {
            use_type_invariant(self);
        }
        self.shards.len()
    }

    /// Whether the snapshot holds no entry at all.
    pub fn is_empty(&self) -> (empty: bool)
        ensures
            empty == (self@.flatten().len() == 0),
    {
        proof {
            use_type_invariant(self);
            if self@.len() > 0 {
                self@.lemma_flatten_length_ge_single_element_length(0);
            }
        }
        self.shards.len() == 0
    }

    /// All entries of the snapshot as one sequence: shard after shard, each
    /// in its own order.
    pub fn entries(&self) -> (flat: Vec<&Entry<R>>)
        ensures
            flat@.map_values(|entry: &Entry<R>| entry_model(*entry)) == self@.flatten(),
    {
        let ghost model = |entry: &Entry<R>| entry_model(*entry);
        let mut flat: Vec<&Entry<R>> = Vec::new();
        let mut i: usize = 0;
        while i < self.shards.len()
            invariant
                i <= self.shards.len(),
                model == |entry: &Entry<R>| entry_model(*entry),
                flat@.map_values(model) == self@.take(i as int).flatten(),
            decreases self.shards.len() - i,
        {
            let shard = &self.shards[i];
            let ghost before = flat@.map_values(model);
            let mut j: usize = 0;
            while j < shard.len()
                invariant
                    j <= shard.len(),
                    model == |entry: &Entry<R>| entry_model(*entry),
                    flat@.map_values(model) == before + entries_model(shard@).take(j as int),
                decreases shard.len() - j,
            {
                proof {
                    let all = entries_model(shard@);
                    assert(flat@.push(&shard[j as int]).map_values(model) == flat@.map_values(
                        model,
                    ).push(model(&shard[j as int])));
                }
                flat.push(&shard[j]);
                j = j + 1;
            }
            proof {
                assert(self@.take(i as int + 1) == self@.take(i as int).push(self@[i as int]));
                self@.take(i as int).lemma_flatten_push(self@[i as int]);
            }
            i = i + 1;
        }
        proof {
            assert(self@.take(self@.len() as int) == self@);
        }
        flat
    }
}

/// Empty shards hold nothing: with them or without them the entries of a
/// snapshot are the same, in the same order.
pub proof fn lemma_empty_shards_hold_nothing<R>(shards: Seq<ShardModel<R>>)
    ensures
        nonempty(shards).flatten() == shards.flatten(),
    decreases shards.len(),
{
    let holds = |shard: ShardModel<R>| shard.len() > 0;
    if shards.len() == 0 {
    } else {
        let rest = shards.drop_last();
        let last = shards.last();
        lemma_empty_shards_hold_nothing(rest);
        assert(shards =~= rest.push(last));
        rest.lemma_filter_push(last, holds);
        rest.lemma_flatten_push(last);
        if holds(last) {
            rest.filter(holds).lemma_flatten_push(last);
        }
    }
}

} // verus!
