use utxo_inquirer::acceptance::AcceptanceData;
use utxo_inquirer::error::UtxoInquirerError;
use utxo_inquirer::hash::Digest;
use utxo_inquirer::inquirer::VirtualStateProcessor;
use utxo_inquirer::stores::{BlockStore, SelectedChainStore, UtxoCollection, UtxoDiff};
use utxo_inquirer::tx::Transaction;

fn h(n: u64) -> Digest {
    Digest::from_u64_word(n)
}

/// A processor whose chain starts at `first_index` and holds blocks
/// 1, 2, ... with the given DAA scores.
fn chain_with_scores(first_index: u64, scores: &[u64]) -> VirtualStateProcessor {
    let hashes: Vec<Digest> = (1..=scores.len() as u64).map(h).collect();
    let mut headers = BlockStore::new();
    for (i, s) in scores.iter().enumerate() {
        headers.insert(h(i as u64 + 1), *s);
    }
    VirtualStateProcessor::new(
        SelectedChainStore::new(first_index, hashes),
        headers,
        BlockStore::<AcceptanceData>::new(),
        BlockStore::<Vec<Transaction>>::new(),
        BlockStore::<UtxoDiff>::new(),
        UtxoCollection::new(),
    )
}

#[test]
fn end_to_end_three_chain_blocks() {
    let p = chain_with_scores(0, &[100, 105, 108]);
    assert_eq!(p.find_accepting_chain_block_hash_at_daa_score(105, h(1)), Ok(h(2)));
    assert_eq!(p.find_accepting_chain_block_hash_at_daa_score(106, h(1)), Err(UtxoInquirerError::NoTxAtScore));
    assert_eq!(p.find_accepting_chain_block_hash_at_daa_score(99, h(1)), Err(UtxoInquirerError::AlreadyPruned));
}

#[test]
fn every_score_in_the_window_is_found_or_reported_absent() {
    let scores = [100u64, 101, 103, 104, 109, 110, 111, 120, 121, 130];
    let p = chain_with_scores(7, &scores);
    for target in 100..=130u64 {
        let expected = match scores.iter().position(|s| *s == target) {
            Some(i) => Ok(h(i as u64 + 1)),
            None => Err(UtxoInquirerError::NoTxAtScore),
        };
        assert_eq!(p.find_accepting_chain_block_hash_at_daa_score(target, h(1)), expected, "target {}", target);
    }
    assert_eq!(p.find_accepting_chain_block_hash_at_daa_score(131, h(1)), Err(UtxoInquirerError::NoTxAtScore));
    assert_eq!(p.find_accepting_chain_block_hash_at_daa_score(u64::MAX, h(1)), Err(UtxoInquirerError::NoTxAtScore));
}

#[test]
fn large_score_jumps_do_not_hide_the_target() {
    let scores = [10u64, 1000, 1001, 50_000, 50_002, 1_000_000];
    let p = chain_with_scores(3, &scores);
    for (i, s) in scores.iter().enumerate() {
        assert_eq!(p.find_accepting_chain_block_hash_at_daa_score(*s, h(1)), Ok(h(i as u64 + 1)));
    }
    assert_eq!(p.find_accepting_chain_block_hash_at_daa_score(50_001, h(1)), Err(UtxoInquirerError::NoTxAtScore));
}

#[test]
fn search_from_a_root_inside_the_chain() {
    let p = chain_with_scores(0, &[1, 2, 3, 4, 5, 6, 7, 8]);
    assert_eq!(p.find_accepting_chain_block_hash_at_daa_score(4, h(3)), Ok(h(4)));
    assert_eq!(p.find_accepting_chain_block_hash_at_daa_score(3, h(3)), Ok(h(3)));
    assert_eq!(p.find_accepting_chain_block_hash_at_daa_score(8, h(3)), Ok(h(8)));
}

#[test]
fn scores_below_the_root_are_pruned() {
    let p = chain_with_scores(0, &[100, 105, 108, 112]);
    for target in [0u64, 50, 104] {
        assert_eq!(p.find_accepting_chain_block_hash_at_daa_score(target, h(2)), Err(UtxoInquirerError::AlreadyPruned));
    }
    assert_eq!(p.find_accepting_chain_block_hash_at_daa_score(105, h(2)), Ok(h(2)));
}

#[test]
fn root_without_header_or_index() {
    let p = chain_with_scores(0, &[100, 105]);
    assert_eq!(
        p.find_accepting_chain_block_hash_at_daa_score(105, h(9)),
        Err(UtxoInquirerError::MissingCompactHeaderForBlockHash(h(9)))
    );
    let mut q = chain_with_scores(0, &[100, 105]);
    q.headers_store.insert(h(9), 50);
    assert_eq!(q.find_accepting_chain_block_hash_at_daa_score(105, h(9)), Err(UtxoInquirerError::MissingIndexForHash(h(9))));
}

#[test]
fn tip_without_header() {
    let mut p = chain_with_scores(0, &[100, 105]);
    p.selected_chain_store.hashes.push(h(3));
    assert_eq!(
        p.find_accepting_chain_block_hash_at_daa_score(105, h(1)),
        Err(UtxoInquirerError::MissingCompactHeaderForBlockHash(h(3)))
    );
}

#[test]
fn tip_position_out_of_range() {
    let p = chain_with_scores(u64::MAX, &[100, 105]);
    assert_eq!(p.find_accepting_chain_block_hash_at_daa_score(100, h(1)), Err(UtxoInquirerError::MissingTipData));
}

#[test]
fn chain_store_lookups() {
    let c = SelectedChainStore::new(10, vec![h(1), h(2), h(3)]);
    assert_eq!(c.get_by_index(10), Some(h(1)));
    assert_eq!(c.get_by_index(12), Some(h(3)));
    assert_eq!(c.get_by_index(13), None);
    assert_eq!(c.get_by_index(9), None);
    assert_eq!(c.get_by_hash(&h(2)), Some(11));
    assert_eq!(c.get_by_hash(&h(4)), None);
    assert_eq!(c.get_tip(), Some((12, h(3))));
    assert_eq!(SelectedChainStore::new(0, vec![]).get_tip(), None);
}

#[test]
fn later_writes_hide_earlier_ones() {
    let mut s = BlockStore::new();
    assert_eq!(s.get(&h(1)), None);
    s.insert(h(1), 5u64);
    s.insert(h(2), 6u64);
    s.insert(h(1), 7u64);
    assert_eq!(s.get(&h(1)), Some(&7));
    assert_eq!(s.get(&h(2)), Some(&6));
    assert_eq!(s.get(&h(3)), None);
}

#[test]
fn missing_probe_header_is_named() {
    // Block 2 sits on the chain without a header; the first probe lands on it.
    let mut p = chain_with_scores(0, &[100, 105, 108]);
    p.headers_store = BlockStore::new();
    p.headers_store.insert(h(1), 100);
    p.headers_store.insert(h(3), 108);
    assert_eq!(
        p.find_accepting_chain_block_hash_at_daa_score(105, h(1)),
        Err(UtxoInquirerError::MissingCompactHeaderForBlockHash(h(2)))
    );
}
