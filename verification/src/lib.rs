//! A tracker for the latest analytics snapshot of a staking network.
//!
//! The tracker keeps six storage slots: the four metrics of the latest
//! snapshot (total stake in thousands of CSPR, number of whale accounts, a
//! risk score, number of active validators), a block height that no
//! operation writes, and the number of snapshots recorded so far.

pub mod slots;
pub mod staking_tracker;
pub mod laws;

pub use slots::{Slots, Snapshot};
pub use staking_tracker::StakingTracker;
