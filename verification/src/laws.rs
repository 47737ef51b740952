//! Laws of the bridge state machine, proved over the spec transitions that
//! the operations' contracts are stated with.

use vstd::prelude::*;

use crate::bridge::{
    next_nonce, spec_transfer_asset, spec_whitelist, transfer_asset_enabled, BridgeView,
};
use crate::records::RecordView;

verus! {

/// After whitelisting a chain it is whitelisted with counter zero, and
/// nothing else moves: other chains, the records, the balances and the
/// configuration stay as they were.
pub proof fn lemma_whitelist_establishes(v: BridgeView, id: Seq<u8>)
    ensures
        spec_whitelist(v, id).chains.contains_key(id),
        spec_whitelist(v, id).chains[id] == 0,
        forall|d: Seq<u8>| d != id ==> #[trigger] spec_whitelist(v, id).chains.contains_key(d)
            == v.chains.contains_key(d),
        forall|d: Seq<u8>| d != id && v.chains.contains_key(d) ==> #[trigger] spec_whitelist(
            v,
            id,
        ).chains[d] == v.chains[d],
        spec_whitelist(v, id).records == v.records,
        spec_whitelist(v, id).balances == v.balances,
        spec_whitelist(v, id).emitter == v.emitter,
        spec_whitelist(v, id).funding == v.funding,
{
}

/// Re-whitelisting an already whitelisted chain resets its counter to zero,
/// discarding the nonce history. This reproduces the module's behaviour
/// exactly; since the published records survive the reset, nonces issued
/// after it repeat earlier ones, a risk relayers must weigh.
pub proof fn lemma_rewhitelist_resets_counter(v: BridgeView, id: Seq<u8>)
    requires
        v.chains.contains_key(id),
    ensures
        spec_whitelist(v, id).chains[id] == 0,
        spec_whitelist(v, id).records == v.records,
{
}

/// A successful asset transfer appends exactly one record; it carries the
/// nonce the issuer returned, which is also the counter now stored for the
/// chain, one above the counter before the call. Earlier records are
/// untouched.
pub proof fn lemma_transfer_emits_one_record(
    v: BridgeView,
    id: Seq<u8>,
    to: Seq<u8>,
    asset_id: Seq<u8>,
    metadata: Seq<u8>,
)
    requires
        transfer_asset_enabled(v, id),
    ensures
        spec_transfer_asset(v, id, to, asset_id, metadata).records.len() == v.records.len() + 1,
        spec_transfer_asset(v, id, to, asset_id, metadata).records.last().nonce == next_nonce(
            v,
            id,
        ),
        spec_transfer_asset(v, id, to, asset_id, metadata).records.last().dest_chain_id == id,
        spec_transfer_asset(v, id, to, asset_id, metadata).chains[id] == next_nonce(v, id),
        next_nonce(v, id) == v.chains[id] + 1,
        forall|i: int| 0 <= i < v.records.len() ==> spec_transfer_asset(
            v,
            id,
            to,
            asset_id,
            metadata,
        ).records[i] == v.records[i],
{
}

/// The arguments of one asset-transfer request, apart from the destination.
pub struct TransferCall {
    pub to: Seq<u8>,
    pub asset_id: Seq<u8>,
    pub metadata: Seq<u8>,
}

/// The record that the call at offset `i` of a run publishes, when the run
/// starts at state `v` and goes to chain `id`.
pub open spec fn run_record(v: BridgeView, id: Seq<u8>, calls: Seq<TransferCall>, i: int) -> RecordView {
    RecordView {
        dest_chain_id: id,
        nonce: (v.chains[id] + i + 1) as u32,
        to: calls[i].to,
        asset_id: calls[i].asset_id,
        metadata: calls[i].metadata,
    }
}

/// The state after a run of successful asset transfers to the same
/// destination, applied in order.
pub open spec fn apply_transfers(v: BridgeView, id: Seq<u8>, calls: Seq<TransferCall>) -> BridgeView
    decreases calls.len(),
{
    if calls.len() == 0 {
        v
    } else {
        let prev = apply_transfers(v, id, calls.drop_last());
        spec_transfer_asset(prev, id, calls.last().to, calls.last().asset_id, calls.last().metadata)
    }
}

/// Sequential successful transfers to one whitelisted chain yield strictly
/// increasing nonces with no gaps and no repeats: the call at offset `i` of
/// the run appends exactly one record, with nonce `i + 1` above the counter
/// the run started from, and the counter ends at the last issued nonce.
/// Records published before the run are untouched. Started right after the
/// chain was whitelisted, where the counter is zero, the run's nonces are
/// exactly `1, 2, ...` up to its length.
pub proof fn lemma_sequential_nonces(v: BridgeView, id: Seq<u8>, calls: Seq<TransferCall>)
    requires
        v.chains.contains_key(id),
        v.chains[id] + calls.len() <= u32::MAX,
    ensures
        apply_transfers(v, id, calls).chains.contains_key(id),
        apply_transfers(v, id, calls).chains[id] == v.chains[id] + calls.len(),
        apply_transfers(v, id, calls).records.len() == v.records.len() + calls.len(),
        forall|i: int| 0 <= i < v.records.len() ==> #[trigger] apply_transfers(
            v,
            id,
            calls,
        ).records[i] == v.records[i],
        forall|i: int| 0 <= i < calls.len() ==> #[trigger] apply_transfers(
            v,
            id,
            calls,
        ).records[v.records.len() + i] == run_record(v, id, calls, i),
        forall|i: int, j: int|
            v.records.len() <= i < j < v.records.len() + calls.len() ==> apply_transfers(
                v,
                id,
                calls,
            ).records[i].nonce < apply_transfers(v, id, calls).records[j].nonce,
    decreases calls.len(),
{
    if calls.len() > 0 {
        let pre = calls.drop_last();
        lemma_sequential_nonces(v, id, pre);
        let prev = apply_transfers(v, id, pre);
        let w = apply_transfers(v, id, calls);
        assert(transfer_asset_enabled(prev, id));
        assert forall|i: int| 0 <= i < calls.len() implies #[trigger] w.records[v.records.len()
            + i] == run_record(v, id, calls, i) by {
            if i < calls.len() - 1 {
                assert(prev.records[v.records.len() + i] == run_record(v, id, pre, i));
                assert(pre[i] == calls[i]);
                assert(run_record(v, id, pre, i) == run_record(v, id, calls, i));
            } else {
                assert(w.records.last() =~= run_record(v, id, calls, i));
            }
        }
        assert forall|i: int, j: int|
            v.records.len() <= i < j < v.records.len() + calls.len() implies w.records[i].nonce
            < w.records[j].nonce by {
            let ki = i - v.records.len();
            let kj = j - v.records.len();
            assert(w.records[v.records.len() + ki] == run_record(v, id, calls, ki));
            assert(w.records[v.records.len() + kj] == run_record(v, id, calls, kj));
        }
    }
}

/// A run of successful transfers right after a chain is whitelisted issues
/// the nonces `1, 2, ...` up to the run's length, in order: whitelisting puts
/// the counter at zero, so the run's record at offset `i` carries nonce
/// `i + 1`.
pub proof fn lemma_nonces_start_at_one(v: BridgeView, id: Seq<u8>, calls: Seq<TransferCall>)
    requires
        calls.len() <= u32::MAX,
    ensures
        forall|i: int| 0 <= i < calls.len() ==> #[trigger] apply_transfers(
            spec_whitelist(v, id),
            id,
            calls,
        ).records[v.records.len() + i].nonce == i + 1,
{
    lemma_whitelist_establishes(v, id);
    lemma_sequential_nonces(spec_whitelist(v, id), id, calls);
}

} // verus!
