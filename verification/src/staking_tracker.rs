//! The tracker itself: the operations on storage.

use vstd::prelude::*;
use crate::slots::{next_count, Slots, Snapshot, DEFAULT_RISK_SCORE};

verus! {

/// Holds the latest snapshot of the network and counts the snapshots
/// recorded.
pub struct StakingTracker {
    slots: Slots,
}

impl View for StakingTracker {
    type V = Slots;

    closed spec fn view(&self) -> Slots {
        self.slots
    }
}

impl StakingTracker {
    /// A tracker over storage that was never written.
    pub fn new() -> (tracker: Self)
        ensures
            tracker@ == Slots::blank(),
    {
        StakingTracker {
            slots: Slots {
                total_staked_k: None,
                whale_count: None,
                risk_score: None,
                validator_count: None,
                last_update_block: None,
                snapshot_count: None,
            },
        }
    }

    /// Writes every slot: zero everywhere, and medium risk.
    pub fn init(&mut self)
        ensures
            final(self)@ == Slots::initial(),
    {
        self.slots.total_staked_k = Some(0);
        self.slots.whale_count = Some(0);
        self.slots.risk_score = Some(DEFAULT_RISK_SCORE);
        self.slots.validator_count = Some(0);
        self.slots.last_update_block = Some(0);
        self.slots.snapshot_count = Some(0);
    }

    /// Records one snapshot: the four metrics replace what was stored, and
    /// the snapshot counter goes up by one. The block height is left alone.
    ///
    /// The counter wraps: recording on a counter of `u32::MAX` stores zero.
    pub fn record_snapshot(
        &mut self,
        total_staked_k: u64,
        whale_count: u32,
        risk_score: u8,
        validator_count: u32,
    )
        ensures
            final(self)@ == old(self)@.record(
                (Snapshot { total_staked_k, whale_count, risk_score, validator_count }),
            ),
            final(self)@.last_update_block == old(self)@.last_update_block,
    {
        self.slots.total_staked_k = Some(total_staked_k);
        self.slots.whale_count = Some(whale_count);
        self.slots.risk_score = Some(risk_score);
        self.slots.validator_count = Some(validator_count);

        let count = self.get_snapshot_count();
        self.slots.snapshot_count = Some(successor(count));
    }

    /// The total stake of the latest snapshot, in thousands of CSPR.
    pub fn get_total_staked_k(&self) -> (value: u64)
        ensures
            value == self@.read_total_staked_k(),
    {
        match self.slots.total_staked_k {
            Some(v) => v,
            None => 0,
        }
    }

    /// The whale count of the latest snapshot.
    pub fn get_whale_count(&self) -> (value: u32)
        ensures
            value == self@.read_whale_count(),
    {
        match self.slots.whale_count {
            Some(v) => v,
            None => 0,
        }
    }

    /// The risk score of the latest snapshot.
    pub fn get_risk_score(&self) -> (value: u8)
        ensures
            value == self@.read_risk_score(),
    {
        match self.slots.risk_score {
            Some(v) => v,
            None => 0,
        }
    }

    /// The validator count of the latest snapshot.
    pub fn get_validator_count(&self) -> (value: u32)
        ensures
            value == self@.read_validator_count(),
    {
        match self.slots.validator_count {
            Some(v) => v,
            None => 0,
        }
    }

    /// The number of snapshots recorded so far.
    pub fn get_snapshot_count(&self) -> (value: u32)
        ensures
            value == self@.read_snapshot_count(),
    {
        match self.slots.snapshot_count {
            Some(v) => v,
            None => 0,
        }
    }

    /// A tracker over the given storage.
    pub fn from_slots(slots: Slots) -> (tracker: Self)
        ensures
            tracker@ == slots,
    {
        StakingTracker { slots }
    }

    /// The storage as it stands.
    pub fn slots(&self) -> (slots: Slots)
        ensures
            slots == self@,
    {
        self.slots
    }
}

/// One more than `count`, and zero after `u32::MAX`.
fn successor(count: u32) -> (next: u32)
    ensures
        next == next_count(count),
{
    if count == u32::MAX {
        0
    } else {
        count + 1
    }
}

} // verus!
