use utxo_inquirer::acceptance::{locate_many, locate_single, AcceptanceData, AcceptedTxEntry, MergesetBlockAcceptanceData};
use utxo_inquirer::error::UtxoInquirerError;
use utxo_inquirer::hash::Digest;
use utxo_inquirer::inquirer::VirtualStateProcessor;
use utxo_inquirer::stores::{BlockStore, SelectedChainStore, UtxoCollection, UtxoDiff};
use utxo_inquirer::tx::{
    ScriptPublicKey, SignableTransaction, Transaction, TransactionInput, TransactionOutpoint, TransactionOutput, UtxoEntry,
};

fn h(n: u64) -> Digest {
    Digest::from_u64_word(n)
}

fn script(b: u8) -> ScriptPublicKey {
    ScriptPublicKey { version: 0, script: vec![0x20, b, 0xac] }
}

fn outpoint(tx: u64, index: u32) -> TransactionOutpoint {
    TransactionOutpoint { transaction_id: h(tx), index }
}

fn tx(id: u64, spends: &[TransactionOutpoint], values: &[u64], coinbase: bool) -> Transaction {
    Transaction {
        version: 0,
        inputs: spends
            .iter()
            .map(|o| TransactionInput { previous_outpoint: *o, signature_script: vec![1, 2], sequence: 0, sig_op_count: 1 })
            .collect(),
        outputs: values
            .iter()
            .enumerate()
            .map(|(i, v)| TransactionOutput { value: *v, script_public_key: script(i as u8) })
            .collect(),
        lock_time: 0,
        coinbase,
        gas: 0,
        payload: vec![],
        id: h(id),
    }
}

fn entry(amount: u64, spk: ScriptPublicKey, daa: u64, coinbase: bool) -> UtxoEntry {
    UtxoEntry { amount, script_public_key: spk, block_daa_score: daa, is_coinbase: coinbase }
}

fn accepted(block: u64, entries: &[(u64, u32)]) -> MergesetBlockAcceptanceData {
    MergesetBlockAcceptanceData {
        block_hash: h(block),
        accepted_transactions: entries
            .iter()
            .map(|(id, ix)| AcceptedTxEntry { transaction_id: h(*id), index_within_block: *ix })
            .collect(),
    }
}

// Ids: chain blocks 1, 2, 3; merged blocks 11 and 12; transactions from 100.
const C1: u64 = 1;
const C2: u64 = 2;
const M1: u64 = 11;
const M2: u64 = 12;
const COINBASE: u64 = 100;
const T1: u64 = 101;
const T2: u64 = 102;
const T3: u64 = 103;
const UNACCEPTED: u64 = 104;
const T4: u64 = 105;
const PRIOR: u64 = 90;

fn block_m1() -> Vec<Transaction> {
    vec![tx(COINBASE, &[], &[500], true), tx(T1, &[outpoint(PRIOR, 0)], &[70, 30], false), tx(T4, &[outpoint(COINBASE, 0)], &[499], false)]
}

fn block_m2() -> Vec<Transaction> {
    vec![
        tx(UNACCEPTED, &[outpoint(PRIOR, 5)], &[1], false),
        tx(T2, &[outpoint(T1, 0)], &[40, 29], false),
        tx(T3, &[outpoint(T2, 1), outpoint(PRIOR, 1)], &[35], false),
    ]
}

fn acceptance_of_c2() -> AcceptanceData {
    vec![accepted(M1, &[(COINBASE, 0), (T1, 1), (T4, 2)]), accepted(M2, &[(T2, 1), (T3, 2)])]
}

fn prior_entry(index: u32) -> UtxoEntry {
    entry(100 + index as u64, script(200 + index as u8), 42, false)
}

fn snapshot() -> VirtualStateProcessor {
    let mut headers = BlockStore::new();
    headers.insert(h(C1), 100);
    headers.insert(h(C2), 105);
    headers.insert(h(3), 108);
    let mut acceptance = BlockStore::new();
    acceptance.insert(h(C2), acceptance_of_c2());
    let mut block_txs = BlockStore::new();
    block_txs.insert(h(M1), block_m1());
    block_txs.insert(h(M2), block_m2());
    let mut removed = UtxoCollection::new();
    removed.insert(outpoint(PRIOR, 0), prior_entry(0));
    removed.insert(outpoint(PRIOR, 1), prior_entry(1));
    let mut diffs = BlockStore::new();
    diffs.insert(h(C2), UtxoDiff { added: UtxoCollection::new(), removed });
    VirtualStateProcessor::new(SelectedChainStore::new(0, vec![h(C1), h(C2), h(3)]), headers, acceptance, block_txs, diffs, UtxoCollection::new())
}

fn find(txs: &[Transaction], id: u64) -> Transaction {
    txs.iter().find(|t| t.id == h(id)).unwrap().clone()
}

#[test]
fn single_and_batch_location_agree() {
    let data = acceptance_of_c2();
    for id in [COINBASE, T1, T2, T3, T4] {
        let loc = locate_single(&h(id), &data).unwrap();
        assert_eq!(locate_many(&vec![h(id)], &data), Ok(vec![loc]));
    }
    assert_eq!(locate_single(&h(T2), &data), Some((h(M2), 1)));
    assert_eq!(locate_single(&h(UNACCEPTED), &data), None);
}

#[test]
fn batch_location_names_exactly_the_missing_ids() {
    let data = acceptance_of_c2();
    assert_eq!(
        locate_many(&vec![h(T1), h(999)], &data),
        Err(UtxoInquirerError::MissingQueriedTransactions(vec![h(999)]))
    );
    assert_eq!(
        locate_many(&vec![h(998), h(T3), h(UNACCEPTED)], &data),
        Err(UtxoInquirerError::MissingQueriedTransactions(vec![h(998), h(UNACCEPTED)]))
    );
    assert_eq!(locate_many(&vec![h(T3), h(T1)], &data), Ok(vec![(h(M2), 2), (h(M1), 1)]));
    assert_eq!(locate_many(&vec![h(T1), h(T1)], &data), Ok(vec![(h(M1), 1), (h(M1), 1)]));
    assert_eq!(locate_many(&vec![], &data), Ok(vec![]));
    // An id accepted twice is located at its first acceptance.
    let twice = vec![accepted(M1, &[(T1, 1)]), accepted(M2, &[(T1, 4), (T2, 1)])];
    assert_eq!(locate_many(&vec![h(T2), h(T1)], &twice), Ok(vec![(h(M2), 1), (h(M1), 1)]));
    assert_eq!(locate_single(&h(T1), &twice), Some((h(M1), 1)));
}

#[test]
fn spent_output_created_in_the_same_window_resolves_through_its_creator() {
    let p = snapshot();
    let r = p.get_populated_transaction(h(T2), 105, h(C1)).unwrap();
    let creator = find(&block_m1(), T1);
    assert_eq!(r.tx, find(&block_m2(), T2));
    assert_eq!(r.entries, vec![entry(70, creator.outputs[0].script_public_key.clone(), 105, false)]);
}

#[test]
fn fallback_entry_keeps_the_creators_coinbase_flag() {
    let p = snapshot();
    let r = p.get_populated_transactions_by_accepting_block(Some(vec![h(T4)]), h(C2)).unwrap();
    assert_eq!(r.len(), 1);
    assert_eq!(r[0].entries, vec![entry(500, script(0), 105, true)]);
}

#[test]
fn removed_entries_are_used_first() {
    let p = snapshot();
    let r = p.get_populated_transactions_by_accepting_block(Some(vec![h(T1)]), h(C2)).unwrap();
    assert_eq!(r, vec![SignableTransaction { tx: find(&block_m1(), T1), entries: vec![prior_entry(0)] }]);
}

#[test]
fn batch_outputs_and_removed_entries_combine() {
    let p = snapshot();
    let r = p.get_populated_transactions_by_accepting_block(Some(vec![h(T3), h(T2)]), h(C2)).unwrap();
    assert_eq!(r.len(), 2);
    assert_eq!(r[0].tx.id, h(T3));
    assert_eq!(r[0].entries, vec![entry(29, script(1), 105, false), prior_entry(1)]);
    assert_eq!(r[1].tx.id, h(T2));
    assert_eq!(r[1].entries, vec![entry(70, script(0), 105, false)]);
}

#[test]
fn all_accepted_transactions_in_acceptance_order() {
    let p = snapshot();
    let r = p.get_populated_transactions_by_accepting_block(None, h(C2)).unwrap();
    let ids: Vec<Digest> = r.iter().map(|s| s.tx.id).collect();
    assert_eq!(ids, vec![h(COINBASE), h(T1), h(T4), h(T2), h(T3)]);
    assert!(r[0].entries.is_empty());
    assert_eq!(r[1].entries, vec![prior_entry(0)]);
}

#[test]
fn repeated_population_is_identical() {
    let p = snapshot();
    let a = p.get_populated_transactions_by_accepting_block(None, h(C2));
    let b = p.get_populated_transactions_by_accepting_block(None, h(C2));
    assert_eq!(a, b);
    let c = p.get_populated_transactions_by_accepting_daa_score(Some(vec![h(T3)]), 105, h(C1));
    let d = p.get_populated_transactions_by_accepting_daa_score(Some(vec![h(T3)]), 105, h(C1));
    assert_eq!(c, d);
    assert!(c.is_ok());
}

#[test]
fn population_by_score_matches_population_by_block() {
    let p = snapshot();
    assert_eq!(
        p.get_populated_transactions_by_accepting_daa_score(None, 105, h(C1)),
        p.get_populated_transactions_by_accepting_block(None, h(C2))
    );
    assert_eq!(
        p.get_populated_transactions_by_accepting_daa_score(None, 104, h(C1)),
        Err(UtxoInquirerError::NoTxAtScore)
    );
    assert_eq!(p.get_populated_transaction(h(T2), 99, h(C1)), Err(UtxoInquirerError::AlreadyPruned));
}

#[test]
fn empty_query_is_refused() {
    let p = snapshot();
    assert_eq!(
        p.get_populated_transactions_by_accepting_block(Some(vec![]), h(C2)),
        Err(UtxoInquirerError::EmptyTransactionIdList)
    );
    // Refused before any store read or search.
    assert_eq!(
        p.get_populated_transactions_by_accepting_block(Some(vec![]), h(C1)),
        Err(UtxoInquirerError::EmptyTransactionIdList)
    );
    assert_eq!(
        p.get_populated_transactions_by_accepting_daa_score(Some(vec![]), 99, h(C1)),
        Err(UtxoInquirerError::EmptyTransactionIdList)
    );
    assert_eq!(
        p.get_populated_transactions_by_accepting_daa_score(Some(vec![]), 105, h(55)),
        Err(UtxoInquirerError::EmptyTransactionIdList)
    );
}

#[test]
fn single_population_is_the_batch_population_of_one_id() {
    let p = snapshot();
    for id in [COINBASE, T1, T2, T3, T4, UNACCEPTED, 999] {
        assert_eq!(
            p.get_populated_transaction(h(id), 105, h(C1)),
            p.get_populated_transactions_by_accepting_block(Some(vec![h(id)]), h(C2)).map(|mut v| v.remove(0))
        );
    }
}

#[test]
fn root_without_header_is_named_by_the_score_queries() {
    let p = snapshot();
    assert_eq!(
        p.get_populated_transaction(h(T2), 105, h(55)),
        Err(UtxoInquirerError::MissingCompactHeaderForBlockHash(h(55)))
    );
    assert_eq!(
        p.get_populated_transactions_by_accepting_daa_score(None, 105, h(55)),
        Err(UtxoInquirerError::MissingCompactHeaderForBlockHash(h(55)))
    );
}

#[test]
fn missing_queried_transaction() {
    let p = snapshot();
    assert_eq!(
        p.get_populated_transactions_by_accepting_block(Some(vec![h(T2), h(UNACCEPTED)]), h(C2)),
        Err(UtxoInquirerError::MissingQueriedTransactions(vec![h(UNACCEPTED)]))
    );
    assert_eq!(
        p.get_populated_transaction(h(UNACCEPTED), 105, h(C1)),
        Err(UtxoInquirerError::MissingQueriedTransactions(vec![h(UNACCEPTED)]))
    );
    assert_eq!(
        p.get_populated_transaction_by_accepting_block(h(UNACCEPTED), h(C2)),
        p.get_populated_transactions_by_accepting_block(Some(vec![h(UNACCEPTED)]), h(C2)).map(|mut v| v.remove(0))
    );
}

#[test]
fn missing_stores_for_the_accepting_block() {
    let p = snapshot();
    assert_eq!(
        p.get_populated_transactions_by_accepting_block(None, h(C1)),
        Err(UtxoInquirerError::MissingAcceptanceDataForChainBlock(h(C1)))
    );
    let mut q = snapshot();
    q.utxo_diffs_store = BlockStore::new();
    assert_eq!(
        q.get_populated_transactions_by_accepting_block(None, h(C2)),
        Err(UtxoInquirerError::MissingUtxoDiffForChainBlock(h(C2)))
    );
    let mut r = snapshot();
    r.acceptance_data_store.insert(h(77), acceptance_of_c2());
    assert_eq!(
        r.get_populated_transactions_by_accepting_block(None, h(77)),
        Err(UtxoInquirerError::MissingCompactHeaderForBlockHash(h(77)))
    );
}

#[test]
fn block_transactions_store_faults() {
    let mut p = snapshot();
    p.block_transactions_store = BlockStore::new();
    p.block_transactions_store.insert(h(M1), block_m1());
    assert_eq!(
        p.get_populated_transactions_by_accepting_block(Some(vec![h(T3)]), h(C2)),
        Err(UtxoInquirerError::MissingBlockFromBlockTxStore(h(M2)))
    );
    p.block_transactions_store.insert(h(M2), vec![tx(UNACCEPTED, &[], &[1], false), tx(UNACCEPTED, &[], &[2], false)]);
    assert_eq!(
        p.get_populated_transactions_by_accepting_block(Some(vec![h(T3)]), h(C2)),
        Err(UtxoInquirerError::MissingTransactionIndexOfBlock(2, h(M2)))
    );
    assert_eq!(
        p.get_populated_transactions_by_accepting_block(None, h(C2)),
        Err(UtxoInquirerError::UnexpectedTransactionMismatch(h(UNACCEPTED), h(T2)))
    );
}

#[test]
fn unresolvable_outpoints() {
    let mut p = snapshot();
    // T3 spends an output of T2 that does not exist.
    p.block_transactions_store.insert(
        h(M2),
        vec![
            tx(UNACCEPTED, &[], &[1], false),
            tx(T2, &[outpoint(T1, 0)], &[40, 29], false),
            tx(T3, &[outpoint(T2, 7)], &[35], false),
        ],
    );
    assert_eq!(
        p.get_populated_transactions_by_accepting_block(Some(vec![h(T3)]), h(C2)),
        Err(UtxoInquirerError::MissingUtxoEntryForOutpoint(outpoint(T2, 7)))
    );
    // T3 spends an output of a transaction that nothing accepted.
    p.block_transactions_store.insert(
        h(M2),
        vec![tx(UNACCEPTED, &[], &[1], false), tx(T2, &[outpoint(T1, 0)], &[40, 29], false), tx(T3, &[outpoint(555, 0)], &[35], false)],
    );
    assert_eq!(
        p.get_populated_transactions_by_accepting_block(Some(vec![h(T3)]), h(C2)),
        Err(UtxoInquirerError::MissingUtxoEntryForOutpoint(outpoint(555, 0)))
    );
}

#[test]
fn outpoint_collection_lookups() {
    let mut c = UtxoCollection::new();
    assert_eq!(c.get(&outpoint(1, 0)), None);
    c.insert(outpoint(1, 0), prior_entry(0));
    c.insert(outpoint(1, 1), prior_entry(1));
    c.insert(outpoint(1, 0), prior_entry(3));
    assert_eq!(c.get(&outpoint(1, 0)), Some(&prior_entry(3)));
    assert_eq!(c.get(&outpoint(1, 1)), Some(&prior_entry(1)));
    assert_eq!(c.get(&outpoint(2, 0)), None);
}

fn snapshot_with_full_chain() -> VirtualStateProcessor {
    let mut p = snapshot();
    p.acceptance_data_store.insert(h(C1), vec![]);
    p.acceptance_data_store.insert(h(3), vec![]);
    p
}

#[test]
fn accepted_block_is_populated_through_its_accepting_chain_block() {
    let p = snapshot_with_full_chain();
    let r = p.get_populated_block_transactions(h(M2), h(C1), true).unwrap();
    assert_eq!(r.len(), 2);
    assert_eq!(r[0].tx, find(&block_m2(), T2));
    assert_eq!(r[0].entries, vec![entry(70, script(0), 105, false)]);
    assert_eq!(r[1].tx, find(&block_m2(), T3));
    assert_eq!(r[1].entries, vec![entry(29, script(1), 105, false), prior_entry(1)]);
    assert_eq!(
        p.get_populated_block_transactions(h(M2), h(C1), true),
        p.get_populated_transactions_by_accepting_block(Some(vec![h(T2), h(T3)]), h(C2))
    );
}

#[test]
fn block_merged_by_no_chain_block() {
    let p = snapshot_with_full_chain();
    assert_eq!(
        p.get_populated_block_transactions(h(66), h(C1), true),
        Err(UtxoInquirerError::MissingAcceptingChainBlock(h(66)))
    );
    assert_eq!(p.get_populated_block_transactions(h(M1), h(66), true), Err(UtxoInquirerError::MissingIndexForHash(h(66))));
    let q = snapshot();
    assert_eq!(
        q.get_populated_block_transactions(h(M1), h(C1), true),
        Err(UtxoInquirerError::MissingAcceptanceDataForChainBlock(h(C1)))
    );
}

#[test]
fn unaccepted_block_is_resolved_against_the_virtual_utxo_set() {
    let mut p = snapshot_with_full_chain();
    p.block_transactions_store.insert(h(66), vec![tx(300, &[outpoint(PRIOR, 3), outpoint(PRIOR, 4)], &[9], false)]);
    p.virtual_utxo_set.insert(outpoint(PRIOR, 3), prior_entry(3));
    assert_eq!(
        p.get_populated_block_transactions(h(66), h(C1), false),
        Err(UtxoInquirerError::MissingUtxoEntryForOutpoint(outpoint(PRIOR, 4)))
    );
    p.virtual_utxo_set.insert(outpoint(PRIOR, 4), prior_entry(4));
    let r = p.get_populated_block_transactions(h(66), h(C1), false).unwrap();
    assert_eq!(r.len(), 1);
    assert_eq!(r[0].entries, vec![prior_entry(3), prior_entry(4)]);
    assert_eq!(
        p.get_populated_block_transactions(h(67), h(C1), false),
        Err(UtxoInquirerError::MissingBlockFromBlockTxStore(h(67)))
    );
}

#[test]
fn transactions_found_through_acceptance_data() {
    let p = snapshot();
    let data = acceptance_of_c2();
    assert_eq!(p.find_tx_from_acceptance_data(h(T3), &data), Ok(find(&block_m2(), T3)));
    assert_eq!(
        p.find_tx_from_acceptance_data(h(UNACCEPTED), &data),
        Err(UtxoInquirerError::MissingContainingAcceptanceForTx(h(UNACCEPTED)))
    );
    assert_eq!(
        p.find_txs_from_acceptance_data(Some(vec![h(T4), h(COINBASE)]), &data),
        Ok(vec![find(&block_m1(), T4), find(&block_m1(), COINBASE)])
    );
    let all = p.find_txs_from_acceptance_data(None, &data).unwrap();
    assert_eq!(all.len(), 5);
    assert_eq!(all[3], find(&block_m2(), T2));
}
