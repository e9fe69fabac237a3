use vstd::prelude::*;

use crate::acceptance::{AcceptanceData, AcceptedTxEntry, MergesetBlockAcceptanceData};
use crate::collect::collect;
use crate::error::{InquirerError, UtxoInquirerError, UtxoInquirerErrorView};
use crate::hash::Digest;
use crate::inquirer::VirtualStateProcessor;
use crate::populate::{signables_result_view, views_of, EntrySource};
use crate::stores::lemma_first_occurrence;
use crate::tx::{SignableTransaction, SignableTransactionView, TransactionInputView, TransactionView, UtxoEntryView};

verus! {

/// The accepted transactions of the first entry of `data` for merged block `block`.
pub open spec fn merged_entries(data: Seq<MergesetBlockAcceptanceData>, block: Digest) -> Option<Seq<AcceptedTxEntry>>
    decreases data.len(),
{
    if data.len() == 0 {
        None
    } else if data[0].block_hash == block {
        Some(data[0].accepted_transactions@)
    } else {
        merged_entries(data.drop_first(), block)
    }
}

/// Finds the first entry of `data` for merged block `block`.
fn find_merged_block(data: &AcceptanceData, block: &Digest) -> (r: Option<usize>)
    ensures
        match r {
            Some(i) => i < data@.len() && merged_entries(data@, *block) == Some(data@[i as int].accepted_transactions@),
            None => merged_entries(data@, *block) is None,
        },
{
    let mut i: usize = 0;
    assert(data@.subrange(0, data@.len() as int) =~= data@);
    while i < data.len()
        invariant
            i <= data@.len(),
            merged_entries(data@, *block) == merged_entries(data@.subrange(i as int, data@.len() as int), *block),
        decreases data@.len() - i,
    {
        assert(data@.subrange(i as int, data@.len() as int).drop_first() =~= data@.subrange(i + 1, data@.len() as int));
        if data[i].block_hash == *block {
            return Some(i);
        }
        i += 1;
    }
    None
}

impl VirtualStateProcessor {
    /// The first chain block from position `position` to `tip` whose
    /// acceptance data merges `block`.
    pub open spec fn accepting_scan(&self, position: int, tip: int, block: Digest) -> Result<Digest, UtxoInquirerErrorView>
        decreases tip + 1 - position,
    {
        if position > tip {
            Err(InquirerError::MissingAcceptingChainBlock(block))
        } else {
            match self.selected_chain_store.spec_hash_at(position) {
                None => Err(InquirerError::MissingHashAtIndex(position as u64)),
                Some(c) => match self.acceptance_data_store.spec_get(c) {
                    None => Err(InquirerError::MissingAcceptanceDataForChainBlock(c)),
                    Some(data) => if merged_entries(data@, block) is Some {
                        Ok(c)
                    } else {
                        self.accepting_scan(position + 1, tip, block)
                    },
                },
            }
        }
    }

    /// The entry that `outpoint` spends in the virtual UTXO set.
    pub open spec fn live_entry(&self, i: TransactionInputView) -> Result<UtxoEntryView, UtxoInquirerErrorView> {
        match self.virtual_utxo_set.spec_get(i.previous_outpoint) {
            Some(e) => Ok(e@),
            None => Err(InquirerError::MissingUtxoEntryForOutpoint(i.previous_outpoint)),
        }
    }

    pub open spec fn live_resolver(&self) -> spec_fn(TransactionInputView) -> Result<UtxoEntryView, UtxoInquirerErrorView> {
        |i: TransactionInputView| self.live_entry(i)
    }

    pub open spec fn live_populate_tx(&self, tx: TransactionView) -> Result<SignableTransactionView, UtxoInquirerErrorView> {
        match collect(tx.inputs, self.live_resolver()) {
            Err(e) => Err(e),
            Ok(entries) => Ok(SignableTransactionView { tx, entries }),
        }
    }

    pub open spec fn live_populator(&self) -> spec_fn(TransactionView) -> Result<SignableTransactionView, UtxoInquirerErrorView> {
        |t: TransactionView| self.live_populate_tx(t)
    }

    /// The transactions of block `block` with the entries their inputs spent:
    /// where the block is in the past of the sink, those that its accepting
    /// chain block (the first from `source` up that merges it) accepted;
    /// otherwise all of them, resolved against the virtual UTXO set.
    pub open spec fn populated_block(&self, block: Digest, source: Digest, block_is_sink_ancestor: bool) -> Result<Seq<SignableTransactionView>, UtxoInquirerErrorView> {
        if block_is_sink_ancestor {
            match self.selected_chain_store.spec_index_of(source) {
                None => Err(InquirerError::MissingIndexForHash(source)),
                Some(sp) => match self.selected_chain_store.spec_tip() {
                    None => Err(InquirerError::MissingTipData),
                    Some((tp, _)) => match self.accepting_scan(sp as int, tp as int, block) {
                        Err(e) => Err(e),
                        Ok(c) => match self.headers_store.spec_get(c) {
                            None => Err(InquirerError::MissingCompactHeaderForBlockHash(c)),
                            Some(daa_score) => match self.utxo_diffs_store.spec_get(c) {
                                None => Err(InquirerError::MissingUtxoDiffForChainBlock(c)),
                                Some(diff) => {
                                    let data = self.acceptance_data_store.spec_get(c).unwrap()@;
                                    let entries = merged_entries(data, block).unwrap().map_values(|e: AcceptedTxEntry| (block, e));
                                    match collect(entries, self.fetcher()) {
                                        Err(e) => Err(e),
                                        Ok(txs) => collect(txs, self.populator(diff.removed, txs, data, daa_score)),
                                    }
                                },
                            },
                        },
                    },
                },
            }
        } else {
            match self.block_transactions_store.spec_get(block) {
                None => Err(InquirerError::MissingBlockFromBlockTxStore(block)),
                Some(txs) => collect(views_of(txs@), self.live_populator()),
            }
        }
    }

    /// Finds the first chain block from position `start` to `tip` that merges `block`.
    fn find_accepting_chain_block(&self, start: u64, tip: u64, block: &Digest) -> (r: Result<Digest, UtxoInquirerError>)
        requires
            start <= tip,
        ensures
            match r {
                Ok(c) => self.accepting_scan(start as int, tip as int, *block) == Ok::<Digest, UtxoInquirerErrorView>(c)
                    && self.acceptance_data_store.spec_get(c) is Some
                    && merged_entries(self.acceptance_data_store.spec_get(c).unwrap()@, *block) is Some,
                Err(e) => self.accepting_scan(start as int, tip as int, *block) == Err::<Digest, UtxoInquirerErrorView>(e@),
            },
    {
        let mut q: u64 = start;
        loop
            invariant
                start <= q <= tip,
                self.accepting_scan(start as int, tip as int, *block) == self.accepting_scan(q as int, tip as int, *block),
            decreases tip - q,
        {
            let c = match self.selected_chain_store.get_by_index(q) {
                Some(c) => c,
                None => {
                    return Err(InquirerError::MissingHashAtIndex(q));
                },
            };
            let data = match self.acceptance_data_store.get(&c) {
                Some(d) => d,
                None => {
                    return Err(InquirerError::MissingAcceptanceDataForChainBlock(c));
                },
            };
            if find_merged_block(data, block).is_some() {
                return Ok(c);
            }
            if q == tip {
                assert(self.accepting_scan(q + 1, tip as int, *block) == Err::<Digest, UtxoInquirerErrorView>(
                    InquirerError::MissingAcceptingChainBlock(*block),
                ));
                return Err(InquirerError::MissingAcceptingChainBlock(*block));
            }
            q += 1;
        }
    }

    /// Returns the transactions of block `block_hash` with the entries their
    /// inputs spent. `block_is_sink_ancestor` tells whether the block is in
    /// the past of the sink, that is, whether some chain block accepted it:
    /// then the accepting chain block is found by scanning the chain forward
    /// from `source_hash`, and the transactions it accepted from the block are
    /// resolved as for any accepted transaction; otherwise every transaction
    /// of the block is resolved against the virtual UTXO set.
    ///
    /// *Assumed to be called under the pruning read lock.*
    pub fn get_populated_block_transactions(
        &self,
        block_hash: Digest,
        source_hash: Digest,
        block_is_sink_ancestor: bool,
    ) -> (r: Result<Vec<SignableTransaction>, UtxoInquirerError>)
        ensures
            signables_result_view(r) == self.populated_block(block_hash, source_hash, block_is_sink_ancestor),
    {
        if !block_is_sink_ancestor {
            let txs = match self.block_transactions_store.get(&block_hash) {
                Some(t) => t,
                None => {
                    return Err(InquirerError::MissingBlockFromBlockTxStore(block_hash));
                },
            };
            return self.populate_batch(txs, &EntrySource::Live);
        }
        let source_index = match self.selected_chain_store.get_by_hash(&source_hash) {
            Some(i) => i,
            None => {
                return Err(InquirerError::MissingIndexForHash(source_hash));
            },
        };
        let (tip_index, _) = match self.selected_chain_store.get_tip() {
            Some(t) => t,
            None => {
                return Err(InquirerError::MissingTipData);
            },
        };
        proof {
            lemma_first_occurrence(self.selected_chain_store.hashes@, source_hash);
        }
        let accepting = self.find_accepting_chain_block(source_index, tip_index, &block_hash)?;
        let daa_score = match self.headers_store.get(&accepting) {
            Some(s) => *s,
            None => {
                return Err(InquirerError::MissingCompactHeaderForBlockHash(accepting));
            },
        };
        let diff = match self.utxo_diffs_store.get(&accepting) {
            Some(d) => d,
            None => {
                return Err(InquirerError::MissingUtxoDiffForChainBlock(accepting));
            },
        };
        let data = match self.acceptance_data_store.get(&accepting) {
            Some(d) => d,
            None => {
                return Err(InquirerError::MissingAcceptanceDataForChainBlock(accepting));
            },
        };
        let i = match find_merged_block(data, &block_hash) {
            Some(i) => i,
            None => {
                return Err(InquirerError::MissingAcceptingChainBlock(block_hash));
            },
        };
        let accepted = &data[i].accepted_transactions;
        let mut entries: Vec<(Digest, AcceptedTxEntry)> = Vec::new();
        let mut j: usize = 0;
        while j < accepted.len()
            invariant
                j <= accepted@.len(),
                entries@ == accepted@.subrange(0, j as int).map_values(|e: AcceptedTxEntry| (block_hash, e)),
            decreases accepted@.len() - j,
        {
            entries.push((block_hash, accepted[j]));
            j += 1;
            assert(entries@ =~= accepted@.subrange(0, j as int).map_values(|e: AcceptedTxEntry| (block_hash, e)));
        }
        assert(accepted@.subrange(0, j as int) =~= accepted@);
        let txs = self.fetch_transactions(&entries)?;
        self.populate_batch(&txs, &EntrySource::Accepted(diff.removed(), data, daa_score))
    }
}

} // verus!
