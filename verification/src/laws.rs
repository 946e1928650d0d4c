//! What holds of the tracker over whole histories of recorded snapshots.

use vstd::prelude::*;
use crate::slots::{Slots, Snapshot};

verus! {

/// Right after initialisation every read gives its default: zero, and 50 for
/// the risk score.
pub proof fn lemma_initial_reads()
    ensures
        Slots::initial().read_total_staked_k() == 0,
        Slots::initial().read_whale_count() == 0,
        Slots::initial().read_risk_score() == 50,
        Slots::initial().read_validator_count() == 0,
        Slots::initial().read_last_update_block() == 0,
        Slots::initial().read_snapshot_count() == 0,
{
}

/// After any history that is not empty, recorded on any storage, the four
/// metrics read as the last snapshot of the history gave them.
pub proof fn lemma_last_snapshot_wins(start: Slots, history: Seq<Snapshot>)
    requires
        history.len() > 0,
    ensures
        start.record_all(history).read_total_staked_k() == history.last().total_staked_k,
        start.record_all(history).read_whale_count() == history.last().whale_count,
        start.record_all(history).read_risk_score() == history.last().risk_score,
        start.record_all(history).read_validator_count() == history.last().validator_count,
{
}

/// Recording a history on any storage moves the counter forward by the
/// length of the history, modulo 2^32.
pub proof fn lemma_count_advances(start: Slots, history: Seq<Snapshot>)
    ensures
        start.record_all(history).read_snapshot_count() == (start.read_snapshot_count()
            + history.len()) % 0x1_0000_0000,
    decreases history.len(),
{
    if history.len() > 0 {
        lemma_count_advances(start, history.drop_last());
    }
}

/// After initialisation and a history of at most `u32::MAX` snapshots, the
/// counter reads the length of the history.
pub proof fn lemma_count_is_history_length(history: Seq<Snapshot>)
    requires
        history.len() <= u32::MAX,
    ensures
        Slots::initial().record_all(history).read_snapshot_count() == history.len(),
{
    lemma_count_advances(Slots::initial(), history);
}

/// Below `u32::MAX`, recording one snapshot raises the counter by exactly one.
pub proof fn lemma_count_grows(start: Slots, snapshot: Snapshot)
    requires
        start.read_snapshot_count() < u32::MAX,
    ensures
        start.record(snapshot).read_snapshot_count() == start.read_snapshot_count() + 1,
{
}

/// Recording a history leaves the block height slot as it was.
pub proof fn lemma_block_height_kept(start: Slots, history: Seq<Snapshot>)
    ensures
        start.record_all(history).last_update_block == start.last_update_block,
    decreases history.len(),
{
    if history.len() > 0 {
        lemma_block_height_kept(start, history.drop_last());
    }
}

/// After initialisation the block height reads zero, whatever was recorded
/// since.
pub proof fn lemma_block_height_stays_zero(history: Seq<Snapshot>)
    ensures
        Slots::initial().record_all(history).read_last_update_block() == 0,
{
    lemma_block_height_kept(Slots::initial(), history);
}

} // verus!
