//! The storage model: six slots, each either unset or holding a value, and
//! the two transitions that write them.

use vstd::prelude::*;

verus! {

/// The risk score that initialisation stores: medium risk.
pub const DEFAULT_RISK_SCORE: u8 = 50;

/// The four metrics that one recorded snapshot carries.
#[derive(Clone, Copy, Debug, PartialEq, Eq, Structural)]
pub struct Snapshot {
    /// Total CSPR staked across all validators, in thousands.
    pub total_staked_k: u64,
    /// Number of accounts that hold more than 100K CSPR.
    pub whale_count: u32,
    /// Overall risk score; lower is safer. Any byte is accepted.
    pub risk_score: u8,
    /// Number of active validators.
    pub validator_count: u32,
}

/// What storage holds. `None` is a slot that was never written.
#[derive(Clone, Copy, Debug, PartialEq, Eq, Structural)]
pub struct Slots {
    pub total_staked_k: Option<u64>,
    pub whale_count: Option<u32>,
    pub risk_score: Option<u8>,
    pub validator_count: Option<u32>,
    pub last_update_block: Option<u64>,
    pub snapshot_count: Option<u32>,
}

/// The counter that follows `count`: one more, and zero after `u32::MAX`.
pub open spec fn next_count(count: u32) -> u32 {
    if count == u32::MAX {
        0u32
    } else {
        (count + 1) as u32
    }
}

impl Slots {
    /// Storage in which no slot was ever written.
    pub open spec fn blank() -> Slots {
        Slots {
            total_staked_k: None,
            whale_count: None,
            risk_score: None,
            validator_count: None,
            last_update_block: None,
            snapshot_count: None,
        }
    }

    /// Storage as initialisation leaves it: every slot written, all zero but
    /// for the risk score.
    pub open spec fn initial() -> Slots {
        Slots {
            total_staked_k: Some(0u64),
            whale_count: Some(0u32),
            risk_score: Some(DEFAULT_RISK_SCORE),
            validator_count: Some(0u32),
            last_update_block: Some(0u64),
            snapshot_count: Some(0u32),
        }
    }

    /// What a read of the total stake gives: zero while the slot is unset.
    pub open spec fn read_total_staked_k(self) -> u64 {
        match self.total_staked_k {
            Some(v) => v,
            None => 0u64,
        }
    }

    /// What a read of the whale count gives: zero while the slot is unset.
    pub open spec fn read_whale_count(self) -> u32 {
        match self.whale_count {
            Some(v) => v,
            None => 0u32,
        }
    }

    /// What a read of the risk score gives: zero while the slot is unset.
    pub open spec fn read_risk_score(self) -> u8 {
        match self.risk_score {
            Some(v) => v,
            None => 0u8,
        }
    }

    /// What a read of the validator count gives: zero while the slot is unset.
    pub open spec fn read_validator_count(self) -> u32 {
        match self.validator_count {
            Some(v) => v,
            None => 0u32,
        }
    }

    /// What a read of the block height gives: zero while the slot is unset.
    pub open spec fn read_last_update_block(self) -> u64 {
        match self.last_update_block {
            Some(v) => v,
            None => 0u64,
        }
    }

    /// What a read of the snapshot counter gives: zero while the slot is
    /// unset.
    pub open spec fn read_snapshot_count(self) -> u32 {
        match self.snapshot_count {
            Some(v) => v,
            None => 0u32,
        }
    }

    /// Storage after one snapshot was recorded: the four metric slots hold
    /// the snapshot, the counter slot holds the successor of what a read of
    /// it gave, and the block height slot is as it was.
    pub open spec fn record(self, snapshot: Snapshot) -> Slots {
        Slots {
            total_staked_k: Some(snapshot.total_staked_k),
            whale_count: Some(snapshot.whale_count),
            risk_score: Some(snapshot.risk_score),
            validator_count: Some(snapshot.validator_count),
            last_update_block: self.last_update_block,
            snapshot_count: Some(next_count(self.read_snapshot_count())),
        }
    }

    /// Storage after the snapshots of `history` were recorded in order.
    pub open spec fn record_all(self, history: Seq<Snapshot>) -> Slots
        decreases history.len(),
    {
        if history.len() == 0 {
            self
        } else {
            self.record_all(history.drop_last()).record(history.last())
        }
    }
}

} // verus!
