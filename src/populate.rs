use vstd::prelude::*;

use crate::acceptance::{locate_many, locate_single, locations_of, containing_block, AcceptanceData, AcceptedTxEntry, MergesetBlockAcceptanceData};
use crate::collect::{collect, lemma_collect_error_persists, lemma_collect_ok, lemma_collect_step};
use crate::error::{InquirerError, UtxoInquirerError, UtxoInquirerErrorView};
use crate::hash::{Digest, TransactionId};
use crate::inquirer::VirtualStateProcessor;
use crate::stores::UtxoCollection;
use crate::tx::{entry_from_output, entry_of_output, Duplicate, SignableTransaction, SignableTransactionView, Transaction, TransactionInput, TransactionOutpoint, TransactionInputView, TransactionView, UtxoEntry, UtxoEntryView};

verus! {

pub open spec fn transaction_result_view(r: Result<Transaction, UtxoInquirerError>) -> Result<TransactionView, UtxoInquirerErrorView> {
    match r {
        Ok(t) => Ok(t@),
        Err(e) => Err(e@),
    }
}

pub open spec fn transactions_result_view(r: Result<Vec<Transaction>, UtxoInquirerError>) -> Result<Seq<TransactionView>, UtxoInquirerErrorView> {
    match r {
        Ok(ts) => Ok(ts@.map_values(|t: Transaction| t@)),
        Err(e) => Err(e@),
    }
}

/// Every acceptance entry of `data`, paired with its merged block, in order.
pub open spec fn flat_entries(data: Seq<MergesetBlockAcceptanceData>) -> Seq<(Digest, AcceptedTxEntry)>
    decreases data.len(),
{
    if data.len() == 0 {
        Seq::empty()
    } else {
        flat_entries(data.drop_last()) + data.last().accepted_transactions@.map_values(
            |e: AcceptedTxEntry| (data.last().block_hash, e),
        )
    }
}

/// The acceptance entries of the queried `ids`, located at `locations`.
pub open spec fn queried_entries(ids: Seq<TransactionId>, locations: Seq<(Digest, u32)>) -> Seq<(Digest, AcceptedTxEntry)> {
    Seq::new(
        ids.len(),
        |k: int| (locations[k].0, AcceptedTxEntry { transaction_id: ids[k], index_within_block: locations[k].1 }),
    )
}

pub open spec fn entry_result_view(r: Result<UtxoEntry, UtxoInquirerError>) -> Result<UtxoEntryView, UtxoInquirerErrorView> {
    match r {
        Ok(e) => Ok(e@),
        Err(e) => Err(e@),
    }
}

pub open spec fn signable_result_view(r: Result<SignableTransaction, UtxoInquirerError>) -> Result<SignableTransactionView, UtxoInquirerErrorView> {
    match r {
        Ok(t) => Ok(t@),
        Err(e) => Err(e@),
    }
}

pub open spec fn signables_result_view(r: Result<Vec<SignableTransaction>, UtxoInquirerError>) -> Result<Seq<SignableTransactionView>, UtxoInquirerErrorView> {
    match r {
        Ok(ts) => Ok(ts@.map_values(|t: SignableTransaction| t@)),
        Err(e) => Err(e@),
    }
}

pub open spec fn ids_view(ids: Option<Vec<TransactionId>>) -> Option<Seq<TransactionId>> {
    match ids {
        Some(v) => Some(v@),
        None => None,
    }
}

pub open spec fn views_of(txs: Seq<Transaction>) -> Seq<TransactionView> {
    txs.map_values(|t: Transaction| t@)
}

/// The first transaction of `batch` whose id is `id`.
pub open spec fn batch_tx(batch: Seq<TransactionView>, id: TransactionId) -> Option<TransactionView>
    decreases batch.len(),
{
    if batch.len() == 0 {
        None
    } else if batch[0].id == id {
        Some(batch[0])
    } else {
        batch_tx(batch.drop_first(), id)
    }
}

/// The entry that `outpoint` names among the outputs of `tx`.
pub open spec fn output_entry(tx: TransactionView, outpoint: TransactionOutpoint, daa_score: u64) -> Result<UtxoEntryView, UtxoInquirerErrorView> {
    if (outpoint.index as int) < tx.outputs.len() {
        Ok(entry_of_output(tx, outpoint.index as int, daa_score))
    } else {
        Err(InquirerError::MissingUtxoEntryForOutpoint(outpoint))
    }
}

/// Finds the first transaction of `batch` whose id is `id`.
fn find_in_batch(batch: &Vec<Transaction>, id: &TransactionId) -> (r: Option<usize>)
    ensures
        match r {
            Some(k) => k < batch@.len() && batch_tx(views_of(batch@), *id) == Some(batch@[k as int]@),
            None => batch_tx(views_of(batch@), *id) is None,
        },
{
    let ghost all = views_of(batch@);
    let mut k: usize = 0;
    assert(all.subrange(0, all.len() as int) =~= all);
    while k < batch.len()
        invariant
            k <= batch@.len(),
            all == views_of(batch@),
            batch_tx(all, *id) == batch_tx(all.subrange(k as int, all.len() as int), *id),
        decreases batch@.len() - k,
    {
        assert(all.subrange(k as int, all.len() as int).drop_first() =~= all.subrange(k + 1, all.len() as int));
        if batch[k].id() == *id {
            return Some(k);
        }
        k += 1;
    }
    None
}

/// Where the entries spent by a batch's inputs are found.
pub(crate) enum EntrySource<'a> {
    /// An accepting chain block: its removed entries, its acceptance data and
    /// its DAA score.
    Accepted(&'a UtxoCollection, &'a AcceptanceData, u64),
    /// The virtual UTXO set.
    Live,
}

impl VirtualStateProcessor {
    /// The transaction that `entry` names in block `h`, read from the block
    /// transactions store and checked against the entry's id.
    pub open spec fn fetch_one(&self, h: Digest, entry: AcceptedTxEntry) -> Result<TransactionView, UtxoInquirerErrorView> {
        match self.block_transactions_store.spec_get(h) {
            None => Err(InquirerError::MissingBlockFromBlockTxStore(h)),
            Some(txs) => if (entry.index_within_block as int) < txs@.len() {
                let t = txs@[entry.index_within_block as int];
                if t.id == entry.transaction_id {
                    Ok(t@)
                } else {
                    Err(InquirerError::UnexpectedTransactionMismatch(t.id, entry.transaction_id))
                }
            } else {
                Err(InquirerError::MissingTransactionIndexOfBlock(entry.index_within_block as usize, h))
            },
        }
    }

    pub open spec fn fetcher(&self) -> spec_fn((Digest, AcceptedTxEntry)) -> Result<TransactionView, UtxoInquirerErrorView> {
        |e: (Digest, AcceptedTxEntry)| self.fetch_one(e.0, e.1)
    }

    /// The transactions that `ids` name in `data` (all accepted ones for `None`),
    /// in query order (in acceptance order for `None`).
    pub open spec fn transactions_of(&self, ids: Option<Seq<TransactionId>>, data: Seq<MergesetBlockAcceptanceData>) -> Result<Seq<TransactionView>, UtxoInquirerErrorView> {
        match ids {
            Some(ids) => if ids.len() == 0 {
                Err(InquirerError::EmptyTransactionIdList)
            } else {
                match locations_of(ids, data) {
                    Err(e) => Err(e),
                    Ok(locations) => collect(queried_entries(ids, locations), self.fetcher()),
                }
            },
            None => collect(flat_entries(data), self.fetcher()),
        }
    }

    /// The transaction `txid` as accepted in `data`.
    pub open spec fn transaction_of(&self, txid: TransactionId, data: Seq<MergesetBlockAcceptanceData>) -> Result<TransactionView, UtxoInquirerErrorView> {
        match containing_block(data, txid) {
            None => Err(InquirerError::MissingContainingAcceptanceForTx(txid)),
            Some((h, ix)) => self.fetch_one(h, AcceptedTxEntry { transaction_id: txid, index_within_block: ix }),
        }
    }

    fn fetch_tx(&self, h: Digest, entry: AcceptedTxEntry) -> (r: Result<Transaction, UtxoInquirerError>)
        ensures
            transaction_result_view(r) == self.fetch_one(h, entry),
    {
        let txs = match self.block_transactions_store.get(&h) {
            Some(txs) => txs,
            None => {
                return Err(InquirerError::MissingBlockFromBlockTxStore(h));
            },
        };
        let ix = entry.index_within_block as usize;
        if ix < txs.len() {
            let t = &txs[ix];
            if t.id() == entry.transaction_id {
                Ok(t.copy())
            } else {
                Err(InquirerError::UnexpectedTransactionMismatch(t.id(), entry.transaction_id))
            }
        } else {
            Err(InquirerError::MissingTransactionIndexOfBlock(ix, h))
        }
    }

    pub(crate) fn fetch_transactions(&self, entries: &Vec<(Digest, AcceptedTxEntry)>) -> (r: Result<Vec<Transaction>, UtxoInquirerError>)
        ensures
            transactions_result_view(r) == collect(entries@, self.fetcher()),
    {
        let mut out: Vec<Transaction> = Vec::new();
        let mut k: usize = 0;
        assert(entries@.subrange(0, 0) =~= Seq::<(Digest, AcceptedTxEntry)>::empty());
        assert(out@.map_values(|t: Transaction| t@) =~= Seq::<TransactionView>::empty());
        while k < entries.len()
            invariant
                k <= entries@.len(),
                collect(entries@.subrange(0, k as int), self.fetcher()) == Ok::<Seq<TransactionView>, UtxoInquirerErrorView>(out@.map_values(|t: Transaction| t@)),
            decreases entries@.len() - k,
        {
            proof {
                lemma_collect_step(entries@, k as int, self.fetcher());
            }
            let (h, entry) = entries[k];
            match self.fetch_tx(h, entry) {
                Ok(t) => {
                    let ghost before = out@;
                    out.push(t);
                    assert(out@.map_values(|t: Transaction| t@) =~= before.map_values(|t: Transaction| t@).push(t@));
                },
                Err(e) => {
                    proof {
                        lemma_collect_error_persists(entries@, k + 1, self.fetcher());
                    }
                    return Err(e);
                },
            }
            k += 1;
        }
        assert(entries@.subrange(0, entries@.len() as int) =~= entries@);
        Ok(out)
    }

    /// Finds a transaction through the acceptance data of its accepting block,
    /// using the index recorded there to read it from the block transactions store.
    pub fn find_tx_from_acceptance_data(&self, txid: TransactionId, data: &AcceptanceData) -> (r: Result<Transaction, UtxoInquirerError>)
        ensures
            transaction_result_view(r) == self.transaction_of(txid, data@),
    {
        match locate_single(&txid, data) {
            None => Err(InquirerError::MissingContainingAcceptanceForTx(txid)),
            Some((h, ix)) => self.fetch_tx(h, AcceptedTxEntry { transaction_id: txid, index_within_block: ix }),
        }
    }

    /// Finds the transactions `tx_ids` through the acceptance data of their
    /// accepting block, in query order; `None` asks for every accepted
    /// transaction, in acceptance order.
    pub fn find_txs_from_acceptance_data(&self, tx_ids: Option<Vec<TransactionId>>, data: &AcceptanceData) -> (r: Result<Vec<Transaction>, UtxoInquirerError>)
        ensures
            transactions_result_view(r) == self.transactions_of(
                ids_view(tx_ids),
                data@,
            ),
    {
        match tx_ids {
            Some(ids) => {
                if ids.len() == 0 {
                    return Err(InquirerError::EmptyTransactionIdList);
                }
                let locations = match locate_many(&ids, data) {
                    Ok(l) => l,
                    Err(e) => {
                        return Err(e);
                    },
                };
                let mut entries: Vec<(Digest, AcceptedTxEntry)> = Vec::new();
                let mut k: usize = 0;
                while k < ids.len()
                    invariant
                        k <= ids@.len(),
                        locations@.len() == ids@.len(),
                        entries@ == queried_entries(ids@, locations@).subrange(0, k as int),
                    decreases ids@.len() - k,
                {
                    let (h, ix) = locations[k];
                    entries.push((h, AcceptedTxEntry { transaction_id: ids[k], index_within_block: ix }));
                    k += 1;
                    assert(entries@ =~= queried_entries(ids@, locations@).subrange(0, k as int));
                }
                assert(entries@ =~= queried_entries(ids@, locations@));
                self.fetch_transactions(&entries)
            },
            None => {
                let mut entries: Vec<(Digest, AcceptedTxEntry)> = Vec::new();
                let mut i: usize = 0;
                assert(data@.subrange(0, 0) =~= Seq::<MergesetBlockAcceptanceData>::empty());
                while i < data.len()
                    invariant
                        i <= data@.len(),
                        entries@ == flat_entries(data@.subrange(0, i as int)),
                    decreases data@.len() - i,
                {
                    let block = &data[i];
                    let ghost start = entries@;
                    let mut j: usize = 0;
                    while j < block.accepted_transactions.len()
                        invariant
                            j <= block.accepted_transactions@.len(),
                            entries@ == start + block.accepted_transactions@.subrange(0, j as int).map_values(
                                |e: AcceptedTxEntry| (block.block_hash, e),
                            ),
                        decreases block.accepted_transactions@.len() - j,
                    {
                        entries.push((block.block_hash, block.accepted_transactions[j]));
                        j += 1;
                        assert(entries@ =~= start + block.accepted_transactions@.subrange(0, j as int).map_values(
                            |e: AcceptedTxEntry| (block.block_hash, e),
                        ));
                    }
                    assert(block.accepted_transactions@.subrange(0, j as int) =~= block.accepted_transactions@);
                    assert(data@.subrange(0, i + 1).drop_last() =~= data@.subrange(0, i as int));
                    i += 1;
                }
                assert(data@.subrange(0, data@.len() as int) =~= data@);
                self.fetch_transactions(&entries)
            },
        }
    }

    /// The entry that `outpoint` spends, found through the transaction that
    /// created it, itself accepted in `data`.
    pub open spec fn resolve_missing(&self, data: Seq<MergesetBlockAcceptanceData>, daa_score: u64, outpoint: TransactionOutpoint) -> Result<UtxoEntryView, UtxoInquirerErrorView> {
        match containing_block(data, outpoint.transaction_id) {
            None => Err(InquirerError::MissingUtxoEntryForOutpoint(outpoint)),
            Some((h, ix)) => match self.fetch_one(h, AcceptedTxEntry { transaction_id: outpoint.transaction_id, index_within_block: ix }) {
                Err(e) => Err(e),
                Ok(t) => output_entry(t, outpoint, daa_score),
            },
        }
    }

    /// The entry that `outpoint` spends: recorded as removed by the accepting
    /// block; else created by a transaction of the batch; else created by a
    /// transaction that the same block accepted.
    pub open spec fn resolve_outpoint(
        &self,
        removed: UtxoCollection,
        batch: Seq<TransactionView>,
        data: Seq<MergesetBlockAcceptanceData>,
        daa_score: u64,
        outpoint: TransactionOutpoint,
    ) -> Result<UtxoEntryView, UtxoInquirerErrorView> {
        match removed.spec_get(outpoint) {
            Some(e) => Ok(e@),
            None => match batch_tx(batch, outpoint.transaction_id) {
                Some(t) => output_entry(t, outpoint, daa_score),
                None => self.resolve_missing(data, daa_score, outpoint),
            },
        }
    }

    pub open spec fn resolver(
        &self,
        removed: UtxoCollection,
        batch: Seq<TransactionView>,
        data: Seq<MergesetBlockAcceptanceData>,
        daa_score: u64,
    ) -> spec_fn(TransactionInputView) -> Result<UtxoEntryView, UtxoInquirerErrorView> {
        |i: TransactionInputView| self.resolve_outpoint(removed, batch, data, daa_score, i.previous_outpoint)
    }

    /// `tx` with the entry spent by each of its inputs.
    pub open spec fn populate_tx(
        &self,
        removed: UtxoCollection,
        batch: Seq<TransactionView>,
        data: Seq<MergesetBlockAcceptanceData>,
        daa_score: u64,
        tx: TransactionView,
    ) -> Result<SignableTransactionView, UtxoInquirerErrorView> {
        match collect(tx.inputs, self.resolver(removed, batch, data, daa_score)) {
            Err(e) => Err(e),
            Ok(entries) => Ok(SignableTransactionView { tx, entries }),
        }
    }

    pub open spec fn populator(
        &self,
        removed: UtxoCollection,
        batch: Seq<TransactionView>,
        data: Seq<MergesetBlockAcceptanceData>,
        daa_score: u64,
    ) -> spec_fn(TransactionView) -> Result<SignableTransactionView, UtxoInquirerErrorView> {
        |t: TransactionView| self.populate_tx(removed, batch, data, daa_score, t)
    }

    /// The transactions `ids` (all, for `None`) accepted by chain block `h`,
    /// each with the entries its inputs spent.
    pub open spec fn populated_by_accepting_block(&self, ids: Option<Seq<TransactionId>>, h: Digest) -> Result<Seq<SignableTransactionView>, UtxoInquirerErrorView> {
        if ids matches Some(v) && v.len() == 0 {
            Err(InquirerError::EmptyTransactionIdList)
        } else {
            match self.acceptance_data_store.spec_get(h) {
                None => Err(InquirerError::MissingAcceptanceDataForChainBlock(h)),
                Some(data) => match self.headers_store.spec_get(h) {
                    None => Err(InquirerError::MissingCompactHeaderForBlockHash(h)),
                    Some(daa_score) => match self.utxo_diffs_store.spec_get(h) {
                        None => Err(InquirerError::MissingUtxoDiffForChainBlock(h)),
                        Some(diff) => match self.transactions_of(ids, data@) {
                            Err(e) => Err(e),
                            Ok(txs) => collect(txs, self.populator(diff.removed, txs, data@, daa_score)),
                        },
                    },
                },
            }
        }
    }

    /// Transaction `txid`, accepted by chain block `h`, with the entries its
    /// inputs spent: the population of `h` for the one id `txid`.
    pub open spec fn populated_single(&self, txid: TransactionId, h: Digest) -> Result<SignableTransactionView, UtxoInquirerErrorView> {
        match self.populated_by_accepting_block(Some(seq![txid]), h) {
            Ok(v) => Ok(v[0]),
            Err(e) => Err(e),
        }
    }

    /// The population of the chain block of DAA score `score`, searched for
    /// from `root` up; an empty query is refused before any search.
    pub open spec fn populated_by_score(&self, ids: Option<Seq<TransactionId>>, score: u64, root: Digest) -> Result<Seq<SignableTransactionView>, UtxoInquirerErrorView> {
        if ids matches Some(v) && v.len() == 0 {
            Err(InquirerError::EmptyTransactionIdList)
        } else {
            match self.search(score, root) {
                Ok(h) => self.populated_by_accepting_block(ids, h),
                Err(e) => Err(e),
            }
        }
    }

    /// Transaction `txid` from the chain block of DAA score `score`, searched
    /// for from `root` up.
    pub open spec fn populated_single_by_score(&self, txid: TransactionId, score: u64, root: Digest) -> Result<SignableTransactionView, UtxoInquirerErrorView> {
        match self.search(score, root) {
            Ok(h) => self.populated_single(txid, h),
            Err(e) => Err(e),
        }
    }

    /// A query for one id yields one transaction.
    pub proof fn lemma_single_query_yields_one(&self, txid: TransactionId, h: Digest)
        ensures
            self.populated_by_accepting_block(Some(seq![txid]), h) matches Ok(v) ==> v.len() == 1,
    {
        if let Some(data) = self.acceptance_data_store.spec_get(h) {
            if let Some(daa_score) = self.headers_store.spec_get(h) {
                if let Some(diff) = self.utxo_diffs_store.spec_get(h) {
                    if let Ok(locations) = locations_of(seq![txid], data@) {
                        lemma_collect_ok(queried_entries(seq![txid], locations), self.fetcher());
                        if let Ok(txs) = self.transactions_of(Some(seq![txid]), data@) {
                            lemma_collect_ok(txs, self.populator(diff.removed, txs, data@, daa_score));
                        }
                    }
                }
            }
        }
    }

    /// Resolves an outpoint that neither the removed entries nor the batch
    /// hold: it was created and spent within one acceptance window, so the
    /// transaction that created it is accepted in `data` as well.
    fn resolve_missing_outpoint(&self, outpoint: &TransactionOutpoint, data: &AcceptanceData, daa_score: u64) -> (r: Result<UtxoEntry, UtxoInquirerError>)
        ensures
            entry_result_view(r) == self.resolve_missing(data@, daa_score, *outpoint),
    {
        let (h, ix) = match locate_single(&outpoint.transaction_id, data) {
            Some(loc) => loc,
            None => {
                return Err(InquirerError::MissingUtxoEntryForOutpoint(*outpoint));
            },
        };
        let other = self.fetch_tx(h, AcceptedTxEntry { transaction_id: outpoint.transaction_id, index_within_block: ix })?;
        match entry_from_output(&other, outpoint.index, daa_score) {
            Some(e) => Ok(e),
            None => Err(InquirerError::MissingUtxoEntryForOutpoint(*outpoint)),
        }
    }

    fn resolve_outpoint_entry(
        &self,
        removed: &UtxoCollection,
        batch: &Vec<Transaction>,
        data: &AcceptanceData,
        daa_score: u64,
        outpoint: &TransactionOutpoint,
    ) -> (r: Result<UtxoEntry, UtxoInquirerError>)
        ensures
            entry_result_view(r) == self.resolve_outpoint(*removed, views_of(batch@), data@, daa_score, *outpoint),
    {
        if let Some(e) = removed.get(outpoint) {
            return Ok(e.copy());
        }
        match find_in_batch(batch, &outpoint.transaction_id) {
            Some(k) => match entry_from_output(&batch[k], outpoint.index, daa_score) {
                Some(e) => Ok(e),
                None => Err(InquirerError::MissingUtxoEntryForOutpoint(*outpoint)),
            },
            None => self.resolve_missing_outpoint(outpoint, data, daa_score),
        }
    }

    /// The resolution of inputs against `source`, with `batch` the
    /// transactions populated together.
    pub(crate) open spec fn source_resolver(&self, source: EntrySource, batch: Seq<TransactionView>) -> spec_fn(TransactionInputView) -> Result<UtxoEntryView, UtxoInquirerErrorView> {
        match source {
            EntrySource::Accepted(removed, data, daa_score) => self.resolver(*removed, batch, data@, daa_score),
            EntrySource::Live => self.live_resolver(),
        }
    }

    pub(crate) open spec fn source_populator(&self, source: EntrySource, batch: Seq<TransactionView>) -> spec_fn(TransactionView) -> Result<SignableTransactionView, UtxoInquirerErrorView> {
        match source {
            EntrySource::Accepted(removed, data, daa_score) => self.populator(*removed, batch, data@, daa_score),
            EntrySource::Live => self.live_populator(),
        }
    }

    fn resolve_entry(&self, source: &EntrySource, batch: &Vec<Transaction>, input: &TransactionInput) -> (r: Result<UtxoEntry, UtxoInquirerError>)
        ensures
            entry_result_view(r) == (self.source_resolver(*source, views_of(batch@)))(input@),
    {
        match source {
            EntrySource::Accepted(removed, data, daa_score) => {
                self.resolve_outpoint_entry(removed, batch, data, *daa_score, &input.previous_outpoint)
            },
            EntrySource::Live => match self.virtual_utxo_set.get(&input.previous_outpoint) {
                Some(e) => Ok(e.copy()),
                None => Err(InquirerError::MissingUtxoEntryForOutpoint(input.previous_outpoint)),
            },
        }
    }

    fn populate_transaction(&self, tx: &Transaction, batch: &Vec<Transaction>, source: &EntrySource) -> (r: Result<SignableTransaction, UtxoInquirerError>)
        ensures
            signable_result_view(r) == match collect(tx@.inputs, self.source_resolver(*source, views_of(batch@))) {
                Err(e) => Err(e),
                Ok(entries) => Ok(SignableTransactionView { tx: tx@, entries }),
            },
    {
        let ghost f = self.source_resolver(*source, views_of(batch@));
        let ghost inputs = tx@.inputs;
        let mut entries: Vec<UtxoEntry> = Vec::new();
        let mut k: usize = 0;
        assert(inputs.subrange(0, 0) =~= Seq::<TransactionInputView>::empty());
        assert(entries@.map_values(|e: UtxoEntry| e@) =~= Seq::<UtxoEntryView>::empty());
        while k < tx.inputs.len()
            invariant
                k <= tx.inputs@.len(),
                inputs == tx@.inputs,
                f == self.source_resolver(*source, views_of(batch@)),
                collect(inputs.subrange(0, k as int), f) == Ok::<Seq<UtxoEntryView>, UtxoInquirerErrorView>(entries@.map_values(|e: UtxoEntry| e@)),
            decreases tx.inputs@.len() - k,
        {
            proof {
                lemma_collect_step(inputs, k as int, f);
            }
            match self.resolve_entry(source, batch, &tx.inputs[k]) {
                Ok(e) => {
                    let ghost before = entries@;
                    entries.push(e);
                    assert(entries@.map_values(|e: UtxoEntry| e@) =~= before.map_values(|e: UtxoEntry| e@).push(e@));
                },
                Err(e) => {
                    proof {
                        lemma_collect_error_persists(inputs, k + 1, f);
                    }
                    return Err(e);
                },
            }
            k += 1;
        }
        assert(inputs.subrange(0, inputs.len() as int) =~= inputs);
        Ok(SignableTransaction::with_entries(tx.copy(), entries))
    }

    /// Populates each transaction of `txs`, resolving inputs against `source`
    /// with `txs` as the batch.
    pub(crate) fn populate_batch(&self, txs: &Vec<Transaction>, source: &EntrySource) -> (r: Result<Vec<SignableTransaction>, UtxoInquirerError>)
        ensures
            signables_result_view(r) == collect(views_of(txs@), self.source_populator(*source, views_of(txs@))),
    {
        let ghost all = views_of(txs@);
        let ghost f = self.source_populator(*source, all);
        let mut out: Vec<SignableTransaction> = Vec::new();
        let mut k: usize = 0;
        assert(all.subrange(0, 0) =~= Seq::<TransactionView>::empty());
        assert(out@.map_values(|t: SignableTransaction| t@) =~= Seq::<SignableTransactionView>::empty());
        while k < txs.len()
            invariant
                k <= txs@.len(),
                all == views_of(txs@),
                f == self.source_populator(*source, all),
                collect(all.subrange(0, k as int), f) == Ok::<Seq<SignableTransactionView>, UtxoInquirerErrorView>(out@.map_values(|t: SignableTransaction| t@)),
            decreases txs@.len() - k,
        {
            proof {
                lemma_collect_step(all, k as int, f);
            }
            match self.populate_transaction(&txs[k], txs, source) {
                Ok(t) => {
                    let ghost before = out@;
                    out.push(t);
                    assert(out@.map_values(|t: SignableTransaction| t@) =~= before.map_values(|t: SignableTransaction| t@).push(t@));
                },
                Err(e) => {
                    proof {
                        lemma_collect_error_persists(all, k + 1, f);
                    }
                    return Err(e);
                },
            }
            k += 1;
        }
        assert(all.subrange(0, all.len() as int) =~= all);
        Ok(out)
    }

    /// Returns the transactions `tx_ids` (every accepted transaction for
    /// `None`) accepted by chain block `accepting_block`, each with the entries
    /// its inputs spent. An empty `tx_ids` is refused before any store read.
    ///
    /// *Assumed to be called under the pruning read lock.*
    pub fn get_populated_transactions_by_accepting_block(
        &self,
        tx_ids: Option<Vec<TransactionId>>,
        accepting_block: Digest,
    ) -> (r: Result<Vec<SignableTransaction>, UtxoInquirerError>)
        ensures
            tx_ids matches Some(v) && v@.len() == 0 ==> r == Err::<Vec<SignableTransaction>, UtxoInquirerError>(InquirerError::EmptyTransactionIdList),
            signables_result_view(r) == self.populated_by_accepting_block(ids_view(tx_ids), accepting_block),
    {
        if let Some(ids) = &tx_ids {
            if ids.len() == 0 {
                return Err(InquirerError::EmptyTransactionIdList);
            }
        }
        let data = match self.acceptance_data_store.get(&accepting_block) {
            Some(d) => d,
            None => {
                return Err(InquirerError::MissingAcceptanceDataForChainBlock(accepting_block));
            },
        };
        let daa_score = match self.headers_store.get(&accepting_block) {
            Some(s) => *s,
            None => {
                return Err(InquirerError::MissingCompactHeaderForBlockHash(accepting_block));
            },
        };
        let diff = match self.utxo_diffs_store.get(&accepting_block) {
            Some(d) => d,
            None => {
                return Err(InquirerError::MissingUtxoDiffForChainBlock(accepting_block));
            },
        };
        let txs = self.find_txs_from_acceptance_data(tx_ids, data)?;
        self.populate_batch(&txs, &EntrySource::Accepted(diff.removed(), data, daa_score))
    }

    /// Returns transaction `txid`, accepted by chain block `accepting_block`,
    /// with the entries its inputs spent: the batch population for the one
    /// id `txid`.
    pub fn get_populated_transaction_by_accepting_block(&self, txid: TransactionId, accepting_block: Digest) -> (r: Result<SignableTransaction, UtxoInquirerError>)
        ensures
            signable_result_view(r) == self.populated_single(txid, accepting_block),
    {
        let mut ids: Vec<TransactionId> = Vec::new();
        ids.push(txid);
        assert(ids_view(Some(ids)) =~= Some(seq![txid]));
        proof {
            self.lemma_single_query_yields_one(txid, accepting_block);
        }
        match self.get_populated_transactions_by_accepting_block(Some(ids), accepting_block) {
            Ok(mut v) => {
                let ghost all = v@;
                match v.pop() {
                    Some(t) => {
                        assert(all.map_values(|t: SignableTransaction| t@)[0] == t@);
                        Ok(t)
                    },
                    None => Err(InquirerError::MissingQueriedTransactions(vec![txid])),
                }
            },
            Err(e) => Err(e),
        }
    }

    /// Returns transaction `txid` with the entries its inputs spent, where
    /// `accepting_block_daa_score` is the DAA score of the chain block that
    /// accepted it, searched for from `retention_period_root_hash` up.
    ///
    /// *Assumed to be called under the pruning read lock.*
    pub fn get_populated_transaction(
        &self,
        txid: TransactionId,
        accepting_block_daa_score: u64,
        retention_period_root_hash: Digest,
    ) -> (r: Result<SignableTransaction, UtxoInquirerError>)
        ensures
            signable_result_view(r) == self.populated_single_by_score(txid, accepting_block_daa_score, retention_period_root_hash),
            self.search_window_sound(retention_period_root_hash) ==> signable_result_view(r) == match self.located(
                accepting_block_daa_score,
                retention_period_root_hash,
            ) {
                Ok(h) => self.populated_single(txid, h),
                Err(e) => Err(e),
            },
            self.headers_store.spec_get(retention_period_root_hash) is None ==> r == Err::<SignableTransaction, UtxoInquirerError>(
                InquirerError::MissingCompactHeaderForBlockHash(retention_period_root_hash),
            ),
            self.headers_store.spec_get(retention_period_root_hash) matches Some(s) && accepting_block_daa_score < s
                ==> r == Err::<SignableTransaction, UtxoInquirerError>(InquirerError::AlreadyPruned),
            r is Ok ==> exists|h: Digest|
                self.is_chain_block_at_score(h, accepting_block_daa_score, retention_period_root_hash)
                    && #[trigger] self.populated_single(txid, h) == signable_result_view(r),
    {
        let h = self.find_accepting_chain_block_hash_at_daa_score(accepting_block_daa_score, retention_period_root_hash)?;
        let r = self.get_populated_transaction_by_accepting_block(txid, h);
        assert(r is Ok ==> self.populated_single(txid, h) == signable_result_view(r));
        r
    }

    /// Returns the transactions `tx_ids` (every accepted transaction for
    /// `None`) with the entries their inputs spent, where
    /// `accepting_block_daa_score` is the DAA score of the chain block that
    /// accepted them, searched for from `retention_period_root_hash` up. An
    /// empty `tx_ids` is refused before any store read.
    ///
    /// *Assumed to be called under the pruning read lock.*
    pub fn get_populated_transactions_by_accepting_daa_score(
        &self,
        tx_ids: Option<Vec<TransactionId>>,
        accepting_block_daa_score: u64,
        retention_period_root_hash: Digest,
    ) -> (r: Result<Vec<SignableTransaction>, UtxoInquirerError>)
        ensures
            tx_ids matches Some(v) && v@.len() == 0 ==> r == Err::<Vec<SignableTransaction>, UtxoInquirerError>(InquirerError::EmptyTransactionIdList),
            signables_result_view(r) == self.populated_by_score(ids_view(tx_ids), accepting_block_daa_score, retention_period_root_hash),
            self.search_window_sound(retention_period_root_hash) && !(tx_ids matches Some(v) && v@.len() == 0) ==> signables_result_view(r) == match self.located(
                accepting_block_daa_score,
                retention_period_root_hash,
            ) {
                Ok(h) => self.populated_by_accepting_block(ids_view(tx_ids), h),
                Err(e) => Err(e),
            },
            self.headers_store.spec_get(retention_period_root_hash) is None && !(tx_ids matches Some(v) && v@.len() == 0)
                ==> r == Err::<Vec<SignableTransaction>, UtxoInquirerError>(InquirerError::MissingCompactHeaderForBlockHash(retention_period_root_hash)),
            self.headers_store.spec_get(retention_period_root_hash) matches Some(s) && accepting_block_daa_score < s && !(tx_ids matches Some(v) && v@.len() == 0)
                ==> r == Err::<Vec<SignableTransaction>, UtxoInquirerError>(InquirerError::AlreadyPruned),
            r is Ok ==> exists|h: Digest|
                self.is_chain_block_at_score(h, accepting_block_daa_score, retention_period_root_hash)
                    && #[trigger] self.populated_by_accepting_block(ids_view(tx_ids), h) == signables_result_view(r),
    {
        if let Some(ids) = &tx_ids {
            if ids.len() == 0 {
                return Err(InquirerError::EmptyTransactionIdList);
            }
        }
        let ghost ids = ids_view(tx_ids);
        let h = self.find_accepting_chain_block_hash_at_daa_score(accepting_block_daa_score, retention_period_root_hash)?;
        let r = self.get_populated_transactions_by_accepting_block(tx_ids, h);
        assert(r is Ok ==> self.populated_by_accepting_block(ids, h) == signables_result_view(r));
        r
    }
}

} // verus!
