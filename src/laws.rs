use vstd::prelude::*;

use crate::acceptance::{containing_block, locations_of, missing_ids, AcceptedTxEntry, MergesetBlockAcceptanceData};
use crate::error::{UtxoInquirerError, UtxoInquirerErrorView};
use crate::collect::lemma_collect_ok;
use crate::hash::{Digest, TransactionId};
use crate::inquirer::VirtualStateProcessor;
use crate::populate::{batch_tx, signable_result_view, signables_result_view};
use crate::stores::UtxoCollection;
use crate::tx::{entry_of_output, SignableTransaction, SignableTransactionView, TransactionOutpoint, TransactionView, UtxoEntryView};

verus! {

/// Where DAA scores increase along the chain from `root` to the tip, at most
/// one chain block in that window has any given score: the block that the
/// search reports is the only one with the target score.
pub proof fn lemma_located_block_is_unique(p: VirtualStateProcessor, target: u64, root: Digest)
    requires
        p.search_window_sound(root),
        p.located(target, root) is Ok,
    ensures
        match (p.located(target, root), p.selected_chain_store.spec_index_of(root), p.selected_chain_store.spec_tip()) {
            (Ok(h), Some(rp), Some((tp, _))) => forall|q: int|
                rp <= q <= tp && #[trigger] p.score_at(q) == Some(target) ==> p.selected_chain_store.spec_hash_at(q) == Some(h),
            _ => false,
        },
{
    let rp = p.selected_chain_store.spec_index_of(root).unwrap();
    let tp = p.selected_chain_store.spec_tip().unwrap().0;
    let c = choose|q: int| rp <= q <= tp && #[trigger] p.score_at(q) == Some(target);
    assert forall|q: int| rp <= q <= tp && #[trigger] p.score_at(q) == Some(target)
        implies p.selected_chain_store.spec_hash_at(q) == Some(p.located(target, root)->Ok_0) by {
        if q < c {
            assert(p.score_at(q).unwrap() + (c - q) <= p.score_at(c).unwrap());
        } else if q > c {
            assert(p.score_at(c).unwrap() + (q - c) <= p.score_at(q).unwrap());
        }
    }
}

/// Where DAA scores increase along the chain, the chain block of score
/// `target` lies no more than `tip_score - target` positions below the tip,
/// so a search that starts there misses no block of that score, however far
/// apart the scores of consecutive blocks are.
pub proof fn lemma_search_floor(p: VirtualStateProcessor, low: int, high: int, target: u64, q: int)
    requires
        p.scores_increase(low, high),
        low <= q <= high,
        p.score_at(q) == Some(target),
    ensures
        high - (p.score_at(high).unwrap() - target) <= q,
{
    if q < high {
        assert(p.score_at(q).unwrap() + (high - q) <= p.score_at(high).unwrap());
    }
}

/// Locating a single accepted transaction by itself and as a one-element
/// batch gives the same merged block and index.
pub proof fn lemma_single_and_batch_location_agree(data: Seq<MergesetBlockAcceptanceData>, id: TransactionId)
    requires
        containing_block(data, id) is Some,
    ensures
        locations_of(seq![id], data) == Ok::<Seq<(Digest, u32)>, UtxoInquirerErrorView>(seq![containing_block(data, id).unwrap()]),
{
    let ids = seq![id];
    assert(ids.drop_last() =~= Seq::<TransactionId>::empty());
    assert(missing_ids(ids.drop_last(), data) =~= Seq::<TransactionId>::empty());
    assert(missing_ids(ids, data) =~= Seq::<TransactionId>::empty());
    assert(ids.map_values(|i: TransactionId| containing_block(data, i).unwrap()) =~= seq![containing_block(data, id).unwrap()]);
}

/// An outpoint created by one transaction and spent by another, both
/// accepted by the same chain block, is absent from the block's removed
/// entries; it resolves through the creating transaction, to an entry that
/// carries the accepting block's DAA score and the creator's coinbase flag.
pub proof fn lemma_multi_spend_resolution(
    p: VirtualStateProcessor,
    removed: UtxoCollection,
    batch: Seq<TransactionView>,
    data: Seq<MergesetBlockAcceptanceData>,
    daa_score: u64,
    outpoint: TransactionOutpoint,
    creator: TransactionView,
)
    requires
        removed.spec_get(outpoint) is None,
        batch_tx(batch, outpoint.transaction_id) is None,
        containing_block(data, outpoint.transaction_id) matches Some((h, ix))
            && p.fetch_one(h, AcceptedTxEntry { transaction_id: outpoint.transaction_id, index_within_block: ix }) == Ok::<TransactionView, UtxoInquirerErrorView>(creator),
        (outpoint.index as int) < creator.outputs.len(),
    ensures
        p.resolve_outpoint(removed, batch, data, daa_score, outpoint) == Ok::<UtxoEntryView, UtxoInquirerErrorView>(entry_of_output(creator, outpoint.index as int, daa_score)),
        entry_of_output(creator, outpoint.index as int, daa_score).block_daa_score == daa_score,
        entry_of_output(creator, outpoint.index as int, daa_score).is_coinbase == creator.coinbase,
{
}

/// A batch in which no transaction has id `id` yields no transaction for it.
pub proof fn lemma_batch_tx_absent(batch: Seq<TransactionView>, id: TransactionId)
    requires
        forall|m: int| 0 <= m < batch.len() ==> #[trigger] batch[m].id != id,
    ensures
        batch_tx(batch, id) is None,
    decreases batch.len(),
{
    if batch.len() > 0 {
        assert forall|m: int| 0 <= m < batch.drop_first().len() implies #[trigger] batch.drop_first()[m].id != id by {
            assert(batch.drop_first()[m] == batch[m + 1]);
        }
        lemma_batch_tx_absent(batch.drop_first(), id);
    }
}

/// In the population of accepting block `b`, an input whose outpoint the
/// block's diff did not record as removed, and whose creator is not in the
/// queried batch but is accepted by `b`, gets the entry of the creator's
/// output, with `b`'s DAA score and the creator's coinbase flag.
pub proof fn lemma_multi_spend_in_population(
    p: VirtualStateProcessor,
    ids: Option<Seq<TransactionId>>,
    b: Digest,
    k: int,
    j: int,
    creator: TransactionView,
)
    requires
        p.populated_by_accepting_block(ids, b) is Ok,
        0 <= k < p.populated_by_accepting_block(ids, b)->Ok_0.len(),
        0 <= j < p.populated_by_accepting_block(ids, b)->Ok_0[k].tx.inputs.len(),
        ({
            let v = p.populated_by_accepting_block(ids, b)->Ok_0;
            let o = v[k].tx.inputs[j].previous_outpoint;
            &&& p.utxo_diffs_store.spec_get(b)->Some_0.removed.spec_get(o) is None
            &&& forall|m: int| 0 <= m < v.len() ==> #[trigger] v[m].tx.id != o.transaction_id
            &&& containing_block(p.acceptance_data_store.spec_get(b)->Some_0@, o.transaction_id) matches Some((hb, ix))
                && p.fetch_one(hb, AcceptedTxEntry { transaction_id: o.transaction_id, index_within_block: ix })
                == Ok::<TransactionView, UtxoInquirerErrorView>(creator)
            &&& (o.index as int) < creator.outputs.len()
        }),
    ensures
        ({
            let v = p.populated_by_accepting_block(ids, b)->Ok_0;
            let o = v[k].tx.inputs[j].previous_outpoint;
            let daa_score = p.headers_store.spec_get(b)->Some_0;
            &&& v[k].entries[j] == entry_of_output(creator, o.index as int, daa_score)
            &&& v[k].entries[j].block_daa_score == daa_score
            &&& v[k].entries[j].is_coinbase == creator.coinbase
        }),
{
    let v = p.populated_by_accepting_block(ids, b)->Ok_0;
    let data = p.acceptance_data_store.spec_get(b)->Some_0;
    let daa_score = p.headers_store.spec_get(b)->Some_0;
    let diff = p.utxo_diffs_store.spec_get(b)->Some_0;
    let txs = p.transactions_of(ids, data@)->Ok_0;
    let f = p.populator(diff.removed, txs, data@, daa_score);
    lemma_collect_ok(txs, f);
    assert(f(txs[k]) == Ok::<SignableTransactionView, UtxoInquirerErrorView>(v[k]));
    let g = p.resolver(diff.removed, txs, data@, daa_score);
    lemma_collect_ok(txs[k].inputs, g);
    assert(g(txs[k].inputs[j]) == Ok::<UtxoEntryView, UtxoInquirerErrorView>(v[k].entries[j]));
    let o = v[k].tx.inputs[j].previous_outpoint;
    assert forall|m: int| 0 <= m < txs.len() implies #[trigger] txs[m].id != o.transaction_id by {
        assert(f(txs[m]) == Ok::<SignableTransactionView, UtxoInquirerErrorView>(v[m]));
        assert(v[m].tx == txs[m]);
    }
    lemma_batch_tx_absent(txs, o.transaction_id);
}

/// Two populations of the same query on the same snapshot agree.
pub proof fn lemma_population_is_deterministic(
    p: VirtualStateProcessor,
    ids: Option<Seq<TransactionId>>,
    accepting_block: Digest,
    first: Result<Vec<SignableTransaction>, UtxoInquirerError>,
    second: Result<Vec<SignableTransaction>, UtxoInquirerError>,
)
    requires
        signables_result_view(first) == p.populated_by_accepting_block(ids, accepting_block),
        signables_result_view(second) == p.populated_by_accepting_block(ids, accepting_block),
    ensures
        signables_result_view(first) == signables_result_view(second),
{
}

/// Two populations of the same query by DAA score on the same snapshot agree,
/// whatever the stores hold.
pub proof fn lemma_population_by_score_is_deterministic(
    p: VirtualStateProcessor,
    ids: Option<Seq<TransactionId>>,
    score: u64,
    root: Digest,
    first: Result<Vec<SignableTransaction>, UtxoInquirerError>,
    second: Result<Vec<SignableTransaction>, UtxoInquirerError>,
)
    requires
        signables_result_view(first) == p.populated_by_score(ids, score, root),
        signables_result_view(second) == p.populated_by_score(ids, score, root),
    ensures
        signables_result_view(first) == signables_result_view(second),
{
}

/// Two populations of one transaction by DAA score on the same snapshot
/// agree, whatever the stores hold.
pub proof fn lemma_single_population_is_deterministic(
    p: VirtualStateProcessor,
    txid: TransactionId,
    score: u64,
    root: Digest,
    first: Result<SignableTransaction, UtxoInquirerError>,
    second: Result<SignableTransaction, UtxoInquirerError>,
)
    requires
        signable_result_view(first) == p.populated_single_by_score(txid, score, root),
        signable_result_view(second) == p.populated_single_by_score(txid, score, root),
    ensures
        signable_result_view(first) == signable_result_view(second),
{
}

} // verus!
