//! The proposal ledger: which proposals are outstanding, by the identifier
//! that a later selection or confirmation will name as its target.

use vstd::prelude::*;
use crate::table::IdTable;

verus! {

/// Outstanding proposals of one provider: target identifier to proposal index.
///
/// A reader borrows the ledger and a writer borrows it exclusively, so every
/// call sees the ledger as some earlier call left it.
pub struct Ledger {
    entries: IdTable<u64>,
}

impl Ledger {
    /// The ledger's internal invariant.
    pub closed spec fn wf(&self) -> bool {
        self.entries.wf()
    }

    /// The ledger as a map from target identifier to proposal index.
    pub closed spec fn view(&self) -> Map<u64, u64> {
        self.entries@
    }

    /// A ledger without entries.
    pub fn new() -> (r: Self)
        ensures
            r.wf(),
            r@ == Map::<u64, u64>::empty(),
    {
        Ledger { entries: IdTable::new() }
    }

    /// Notes that the proposal at `proposal_index` is outstanding under
    /// `target_id`. An entry that was there is overwritten.
    pub fn record(&mut self, target_id: u64, proposal_index: u64)
        requires
            old(self).wf(),
        ensures
            final(self).wf(),
            final(self)@ == old(self)@.insert(target_id, proposal_index),
    {
        self.entries.insert(target_id, proposal_index);
    }

    /// The proposal index under `target_id`, or `None` where the ledger has
    /// no such entry.
    pub fn lookup(&self, target_id: u64) -> (r: Option<u64>)
        requires
            self.wf(),
        ensures
            r == if self@.contains_key(target_id) {
                Some(self@[target_id])
            } else {
                None
            },
    {
        match self.entries.get(target_id) {
            Some(index) => Some(*index),
            None => None,
        }
    }

    /// Whether the ledger has an entry under `target_id`.
    pub fn contains(&self, target_id: u64) -> (r: bool)
        requires
            self.wf(),
        ensures
            r == self@.contains_key(target_id),
    {
        self.entries.contains(target_id)
    }

    /// Drops the entry under `target_id` and returns the index it held, or
    /// `None` where there was no such entry.
    pub fn remove(&mut self, target_id: u64) -> (r: Option<u64>)
        requires
            old(self).wf(),
        ensures
            final(self).wf(),
            final(self)@ == old(self)@.remove(target_id),
            r == if old(self)@.contains_key(target_id) {
                Some(old(self)@[target_id])
            } else {
                None
            },
    {
        self.entries.remove(target_id)
    }
}

/// Recording the same entry twice leaves the ledger as recording it once.
pub proof fn lemma_record_idempotent(ledger: Map<u64, u64>, target_id: u64, proposal_index: u64)
    ensures
        ledger.insert(target_id, proposal_index).insert(target_id, proposal_index)
            == ledger.insert(target_id, proposal_index),
{
    assert(ledger.insert(target_id, proposal_index).insert(target_id, proposal_index)
        =~= ledger.insert(target_id, proposal_index));
}

/// Recording under a key that is present overwrites: only the later index
/// stays.
pub proof fn lemma_record_overwrites(ledger: Map<u64, u64>, target_id: u64, first: u64, second: u64)
    ensures
        ledger.insert(target_id, first).insert(target_id, second) == ledger.insert(
            target_id,
            second,
        ),
        ledger.insert(target_id, first).insert(target_id, second)[target_id] == second,
{
    assert(ledger.insert(target_id, first).insert(target_id, second) =~= ledger.insert(
        target_id,
        second,
    ));
}

/// Removing the same entry twice leaves the ledger as removing it once, and
/// removing an entry that is not there changes nothing.
pub proof fn lemma_remove_idempotent(ledger: Map<u64, u64>, target_id: u64)
    ensures
        ledger.remove(target_id).remove(target_id) == ledger.remove(target_id),
        !ledger.contains_key(target_id) ==> ledger.remove(target_id) == ledger,
        !ledger.remove(target_id).contains_key(target_id),
{
    assert(ledger.remove(target_id).remove(target_id) =~= ledger.remove(target_id));
    if !ledger.contains_key(target_id) {
        assert(ledger.remove(target_id) =~= ledger);
    }
}

} // verus!
