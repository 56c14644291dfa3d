//! The resumable store and its reconciliation logic: an append-only,
//! integer-keyed sequence of step records, each carrying the state
//! snapshot taken right after the step was produced, so that a later
//! run resumes byte-for-byte where the last one stopped.
//!
//! Checkpointing here is per step: `append` durably records the step
//! together with the state snapshot, which also keeps resumption exact
//! after the stored tail is truncated away.

use vstd::prelude::*;

use crate::chain::{chain_state, output_at, step_state, StateModel};
use crate::generator::ChunkGenerator;
use crate::hexfmt::{hex_encode, hex_of};

verus! {

/// One produced element of the sequence: its position, the chunk
/// bytes (blanked when only the digest is wanted), the hex-encoded
/// digest of the chunk, a reserved marker, and the generator state
/// snapshot taken immediately after this step.
pub struct StepRecord {
    pub id: usize,
    pub data: Vec<u8>,
    pub hash: String,
    pub flag: u8,
    pub state: ChunkGenerator,
}

/// Whether `r` is exactly the record a run started from `s0` writes at
/// position `i`.
pub open spec fn row_ok(r: StepRecord, s0: StateModel, i: nat, only_hash: bool) -> bool {
    &&& r.id as nat == i
    &&& r.flag == 0u8
    &&& r.hash@ == hex_of(output_at(s0, i).1)
    &&& r.data@ == (if only_hash {
        Seq::<u8>::empty()
    } else {
        output_at(s0, i).0
    })
    &&& r.state@ == chain_state(s0, i + 1)
    &&& r.state.wf()
}

/// Whether two records agree in every modelled field.
pub open spec fn row_model_eq(a: StepRecord, b: StepRecord) -> bool {
    &&& a.id == b.id
    &&& a.flag == b.flag
    &&& a.data@ == b.data@
    &&& a.hash@ == b.hash@
    &&& a.state@ == b.state@
}

/// An in-memory resumable store: records keyed by their contiguous
/// position, the only permitted mutations being appending the next
/// record and truncating the tail.
pub struct MemStore {
    rows: Vec<StepRecord>,
}

impl MemStore {
    /// The stored records, in id order.
    pub closed spec fn rows(&self) -> Seq<StepRecord> {
        self.rows@
    }

    /// Whether the store holds exactly the records that a run started
    /// from `s0` with the given blanking policy writes, one per
    /// position from zero.
    pub open spec fn valid_for(&self, s0: StateModel, only_hash: bool) -> bool {
        forall|i: int|
            0 <= i < self.rows().len() ==> row_ok(#[trigger] self.rows()[i], s0, i as nat, only_hash)
    }

    /// An empty store.
    pub fn new() -> (r: Self)
        ensures
            r.rows().len() == 0,
    {
        MemStore { rows: Vec::new() }
    }

    /// The number of stored records.
    pub fn len(&self) -> (r: usize)
        ensures
            r == self.rows().len(),
    {
        self.rows.len()
    }

    /// The record at position `i`.
    pub fn get(&self, i: usize) -> (r: &StepRecord)
        requires
            i < self.rows().len(),
        ensures
            *r == self.rows()[i as int],
    {
        &self.rows[i]
    }

    /// The index to resume from and the state to resume with: one past
    /// the highest stored id together with its snapshot, or zero and
    /// the given default when nothing has been stored.
    pub fn load_state(&self, default: ChunkGenerator) -> (r: (usize, ChunkGenerator))
        ensures
            self.rows().len() == 0 ==> r.0 == 0 && r.1@ == default@,
            self.rows().len() > 0 ==> r.0 == self.rows().len() && r.1@ == self.rows().last().state@,
    {
        if self.rows.len() == 0 {
            (0, default)
        } else {
            let last = self.rows.len() - 1;
            (self.rows.len(), self.rows[last].state.snapshot())
        }
    }

    /// Durably records one step and its state snapshot at the next
    /// position.
    pub fn append(&mut self, id: usize, data: Vec<u8>, hash: String, state: ChunkGenerator)
        requires
            id as nat == old(self).rows().len(),
        ensures
            final(self).rows() == old(self).rows().push(
                (StepRecord { id, data, hash, flag: 0u8, state }),
            ),
    {
        self.rows.push(StepRecord { id, data, hash, flag: 0u8, state });
    }

    /// Removes every record with id at or above `keep_below`.
    pub fn truncate(&mut self, keep_below: usize)
        ensures
            keep_below <= old(self).rows().len() ==> final(self).rows() == old(self).rows()
                .subrange(0, keep_below as int),
            keep_below > old(self).rows().len() ==> final(self).rows() == old(self).rows(),
    {
        self.rows.truncate(keep_below);
    }
}

/// Reconciles the store against the requested total step count: a
/// longer stored sequence is truncated down to `n_target` with no new
/// generation work, and a shorter one is resumed from its snapshot and
/// extended through step `n_target - 1`, each new step appended with
/// its snapshot. Either way the store is left holding exactly the
/// first `n_target` records of the chain started from `default`.
pub fn run_to_target(store: &mut MemStore, default: &ChunkGenerator, n_target: usize, only_hash: bool)
    requires
        default.wf(),
        old(store).valid_for(default@, only_hash),
    ensures
        final(store).valid_for(default@, only_hash),
        final(store).rows().len() == n_target,
{
    let (resume_index, mut gen) = store.load_state(default.snapshot());
    proof {
        if store.rows().len() > 0 {
            assert(row_ok(
                store.rows()[store.rows().len() - 1],
                default@,
                (store.rows().len() - 1) as nat,
                only_hash,
            ));
        }
        assert(chain_state(default@, 0) == default@);
    }
    if resume_index > n_target {
        store.truncate(n_target);
    } else {
        let mut i = resume_index;
        while i < n_target
            invariant
                i <= n_target,
                default.wf(),
                gen.wf(),
                gen@ == chain_state(default@, i as nat),
                store.valid_for(default@, only_hash),
                store.rows().len() == i,
            decreases n_target - i,
        {
            let (chunk, hash) = gen.next();
            let hex = hex_encode(hash.as_slice());
            let data = if only_hash {
                Vec::new()
            } else {
                chunk
            };
            proof {
                assert(chain_state(default@, (i + 1) as nat) == step_state(
                    chain_state(default@, i as nat),
                ));
            }
            store.append(i, data, hex, gen.snapshot());
            i = i + 1;
        }
    }
}

/// Truncation idempotence: two valid stores of the same length — one
/// truncated down to that length, one freshly generated to it — agree
/// record for record in every modelled field.
pub proof fn lemma_truncation_idempotent(
    s1: MemStore,
    s2: MemStore,
    s0: StateModel,
    only_hash: bool,
    n_target: nat,
)
    requires
        s1.valid_for(s0, only_hash),
        s1.rows().len() == n_target,
        s2.valid_for(s0, only_hash),
        s2.rows().len() == n_target,
    ensures
        forall|i: int| 0 <= i < n_target ==> row_model_eq(s1.rows()[i], s2.rows()[i]),
{
}

} // verus!
