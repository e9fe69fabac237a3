use vstd::prelude::*;

use crate::acceptance::AcceptanceData;
use crate::error::{InquirerError, UtxoInquirerError, UtxoInquirerErrorView};
use crate::hash::Digest;
use crate::stores::{lemma_first_occurrence, BlockStore, SelectedChainStore, UtxoCollection, UtxoDiff};
use crate::tx::Transaction;

verus! {

/// A consistent snapshot of the stores that the resolver reads.
pub struct VirtualStateProcessor {
    pub selected_chain_store: SelectedChainStore,
    /// The DAA score of each block's header.
    pub headers_store: BlockStore<u64>,
    pub acceptance_data_store: BlockStore<AcceptanceData>,
    pub block_transactions_store: BlockStore<Vec<Transaction>>,
    pub utxo_diffs_store: BlockStore<UtxoDiff>,
    /// The UTXO set of the virtual state.
    pub virtual_utxo_set: UtxoCollection,
}

pub open spec fn error_view<T>(r: Result<T, UtxoInquirerError>) -> Result<T, UtxoInquirerErrorView> {
    match r {
        Ok(v) => Ok(v),
        Err(e) => Err(e@),
    }
}

impl VirtualStateProcessor {
    pub fn new(
        selected_chain_store: SelectedChainStore,
        headers_store: BlockStore<u64>,
        acceptance_data_store: BlockStore<AcceptanceData>,
        block_transactions_store: BlockStore<Vec<Transaction>>,
        utxo_diffs_store: BlockStore<UtxoDiff>,
        virtual_utxo_set: UtxoCollection,
    ) -> (r: VirtualStateProcessor)
        ensures
            r == (VirtualStateProcessor {
                selected_chain_store,
                headers_store,
                acceptance_data_store,
                block_transactions_store,
                utxo_diffs_store,
                virtual_utxo_set,
            }),
    {
        VirtualStateProcessor {
            selected_chain_store,
            headers_store,
            acceptance_data_store,
            block_transactions_store,
            utxo_diffs_store,
            virtual_utxo_set,
        }
    }

    /// The DAA score of the chain block at `position`, where both are stored.
    pub open spec fn score_at(&self, position: int) -> Option<u64> {
        match self.selected_chain_store.spec_hash_at(position) {
            Some(h) => self.headers_store.spec_get(h),
            None => None,
        }
    }

    /// Every chain block from `low` to `high` has a header, and each step
    /// along the chain raises the DAA score by at least one.
    pub open spec fn scores_increase(&self, low: int, high: int) -> bool {
        &&& forall|p: int| low <= p <= high ==> #[trigger] self.score_at(p) is Some
        &&& forall|p: int, q: int|
            low <= p < q <= high ==> #[trigger] self.score_at(p).unwrap() + (q - p) <= #[trigger] self.score_at(q).unwrap()
    }

    /// The chain from `root` to the tip has increasing DAA scores (trivially
    /// so when `root` is not on the chain or the chain has no tip).
    pub open spec fn search_window_sound(&self, root: Digest) -> bool {
        match (self.selected_chain_store.spec_index_of(root), self.selected_chain_store.spec_tip()) {
            (Some(rp), Some((tp, _))) => self.scores_increase(rp as int, tp as int),
            _ => true,
        }
    }

    /// `h` is the chain block at some position from `root` to the tip, and its
    /// DAA score is `target`.
    pub open spec fn is_chain_block_at_score(&self, h: Digest, target: u64, root: Digest) -> bool {
        match (self.selected_chain_store.spec_index_of(root), self.selected_chain_store.spec_tip()) {
            (Some(rp), Some((tp, _))) => exists|p: int|
                rp <= p <= tp && #[trigger] self.selected_chain_store.spec_hash_at(p) == Some(h)
                    && self.headers_store.spec_get(h) == Some(target),
            _ => false,
        }
    }

    /// The outcome of locating the chain block of DAA score `target` above
    /// `root`, where the search window is sound.
    pub open spec fn located(&self, target: u64, root: Digest) -> Result<Digest, UtxoInquirerErrorView> {
        match self.headers_store.spec_get(root) {
            None => Err(InquirerError::MissingCompactHeaderForBlockHash(root)),
            Some(root_score) => if target < root_score {
                Err(InquirerError::AlreadyPruned)
            } else {
                match self.selected_chain_store.spec_index_of(root) {
                    None => Err(InquirerError::MissingIndexForHash(root)),
                    Some(rp) => match self.selected_chain_store.spec_tip() {
                        None => Err(InquirerError::MissingTipData),
                        Some((tp, tip_hash)) => match self.headers_store.spec_get(tip_hash) {
                            None => Err(InquirerError::MissingCompactHeaderForBlockHash(tip_hash)),
                            Some(_) => if exists|p: int| rp <= p <= tp && #[trigger] self.score_at(p) == Some(target) {
                                let p = choose|p: int| rp <= p <= tp && #[trigger] self.score_at(p) == Some(target);
                                Ok(self.selected_chain_store.spec_hash_at(p).unwrap())
                            } else {
                                Err(InquirerError::NoTxAtScore)
                            },
                        },
                    },
                }
            },
        }
    }

    /// Where the search for `target` starts: `tip_score - target` positions
    /// below the tip (a chain segment is no longer than its DAA score span),
    /// but not below the root.
    pub open spec fn search_floor(root_index: u64, tip_index: u64, tip_score: u64, target: u64) -> int {
        let gap: int = if tip_score >= target { tip_score - target } else { 0 };
        let floor: int = if tip_index >= gap { tip_index - gap } else { 0 };
        if floor >= root_index { floor } else { root_index as int }
    }

    /// Bisection for DAA score `target` over chain positions `low` to `high`.
    pub open spec fn bisect(&self, target: u64, low: int, high: int) -> Result<Digest, UtxoInquirerErrorView>
        decreases high - low,
    {
        if low > high {
            Err(InquirerError::NoTxAtScore)
        } else {
            let mid = low + (high - low) / 2;
            match self.selected_chain_store.spec_hash_at(mid) {
                None => Err(InquirerError::MissingHashAtIndex(mid as u64)),
                Some(h) => match self.headers_store.spec_get(h) {
                    None => Err(InquirerError::MissingCompactHeaderForBlockHash(h)),
                    Some(score) => if score == target {
                        Ok(h)
                    } else if score > target {
                        if mid == low {
                            Err(InquirerError::NoTxAtScore)
                        } else {
                            self.bisect(target, low, mid - 1)
                        }
                    } else {
                        if mid == high {
                            Err(InquirerError::NoTxAtScore)
                        } else {
                            self.bisect(target, mid + 1, high)
                        }
                    },
                },
            }
        }
    }

    /// The outcome of the search for the chain block of DAA score `target`
    /// from `root` up to the tip, whatever the stores hold.
    pub open spec fn search(&self, target: u64, root: Digest) -> Result<Digest, UtxoInquirerErrorView> {
        match self.headers_store.spec_get(root) {
            None => Err(InquirerError::MissingCompactHeaderForBlockHash(root)),
            Some(root_score) => if target < root_score {
                Err(InquirerError::AlreadyPruned)
            } else {
                match self.selected_chain_store.spec_index_of(root) {
                    None => Err(InquirerError::MissingIndexForHash(root)),
                    Some(rp) => match self.selected_chain_store.spec_tip() {
                        None => Err(InquirerError::MissingTipData),
                        Some((tp, tip_hash)) => match self.headers_store.spec_get(tip_hash) {
                            None => Err(InquirerError::MissingCompactHeaderForBlockHash(tip_hash)),
                            Some(tip_score) => self.bisect(target, Self::search_floor(rp, tp, tip_score, target), tp as int),
                        },
                    },
                }
            },
        }
    }

    /// Finds the chain block whose DAA score is `target`, searching the chain
    /// from `root` up to the tip.
    ///
    /// Along the chain each block raises the DAA score by at least one, so the
    /// target lies no more than `tip_score - target` positions below the tip:
    /// the search starts there (but not below `root`) and bisects.
    pub fn find_accepting_chain_block_hash_at_daa_score(&self, target: u64, root: Digest) -> (r: Result<Digest, UtxoInquirerError>)
        ensures
            error_view(r) == self.search(target, root),
            self.search_window_sound(root) ==> error_view(r) == self.located(target, root),
            self.headers_store.spec_get(root) is None ==> r == Err::<Digest, UtxoInquirerError>(InquirerError::MissingCompactHeaderForBlockHash(root)),
            self.headers_store.spec_get(root) matches Some(s) && target < s ==> r == Err::<Digest, UtxoInquirerError>(InquirerError::AlreadyPruned),
            r matches Ok(h) ==> self.is_chain_block_at_score(h, target, root),
    {
        let root_score = match self.headers_store.get(&root) {
            Some(s) => *s,
            None => {
                return Err(InquirerError::MissingCompactHeaderForBlockHash(root));
            },
        };
        if target < root_score {
            return Err(InquirerError::AlreadyPruned);
        }
        let root_index = match self.selected_chain_store.get_by_hash(&root) {
            Some(i) => i,
            None => {
                return Err(InquirerError::MissingIndexForHash(root));
            },
        };
        let (tip_index, tip_hash) = match self.selected_chain_store.get_tip() {
            Some(t) => t,
            None => {
                return Err(InquirerError::MissingTipData);
            },
        };
        let tip_score = match self.headers_store.get(&tip_hash) {
            Some(s) => *s,
            None => {
                return Err(InquirerError::MissingCompactHeaderForBlockHash(tip_hash));
            },
        };
        let ghost sound = self.search_window_sound(root);
        proof {
            lemma_first_occurrence(self.selected_chain_store.hashes@, root);
            assert(self.score_at(tip_index as int) == Some(tip_score));
            if sound {
                assert forall|p: int| root_index <= p <= tip_index && #[trigger] self.score_at(p) == Some(target)
                    implies tip_index - (tip_score - target) <= p by {
                    if p < tip_index {
                        assert(self.score_at(p).unwrap() + (tip_index - p) <= self.score_at(tip_index as int).unwrap());
                    }
                }
            }
        }
        let gap = if tip_score >= target { tip_score - target } else { 0 };
        let floor = if tip_index >= gap { tip_index - gap } else { 0 };
        let mut low: u64 = if floor >= root_index { floor } else { root_index };
        let mut high: u64 = tip_index;
        loop
            invariant
                root_index <= low <= high <= tip_index,
                self.selected_chain_store.spec_index_of(root) == Some(root_index),
                self.selected_chain_store.spec_tip() == Some((tip_index, tip_hash)),
                self.headers_store.spec_get(tip_hash) == Some(tip_score),
                self.headers_store.spec_get(root) == Some(root_score),
                root_score <= target,
                sound == self.search_window_sound(root),
                self.selected_chain_store.first_index <= root_index,
                sound ==> forall|p: int| root_index <= p <= tip_index && #[trigger] self.score_at(p) == Some(target) ==> low <= p <= high,
                self.search(target, root) == self.bisect(target, low as int, high as int),
            decreases high - low,
        {
            let mid = low + (high - low) / 2;
            let hash = match self.selected_chain_store.get_by_index(mid) {
                Some(h) => h,
                None => {
                    return Err(InquirerError::MissingHashAtIndex(mid));
                },
            };
            let score = match self.headers_store.get(&hash) {
                Some(s) => *s,
                None => {
                    return Err(InquirerError::MissingCompactHeaderForBlockHash(hash));
                },
            };
            assert(self.score_at(mid as int) == Some(score));
            if score == target {
                proof {
                    if sound {
                        let c = choose|p: int| root_index <= p <= tip_index && #[trigger] self.score_at(p) == Some(target);
                        if c < mid {
                            assert(self.score_at(c).unwrap() + (mid - c) <= self.score_at(mid as int).unwrap());
                        } else if c > mid {
                            assert(self.score_at(mid as int).unwrap() + (c - mid) <= self.score_at(c).unwrap());
                        }
                    }
                }
                return Ok(hash);
            } else if score > target {
                proof {
                    if sound {
                        assert forall|p: int| root_index <= p <= tip_index && #[trigger] self.score_at(p) == Some(target)
                            implies p < mid by {
                            if p > mid {
                                assert(self.score_at(mid as int).unwrap() + (p - mid) <= self.score_at(p).unwrap());
                            }
                        }
                    }
                }
                if mid == low {
                    return Err(InquirerError::NoTxAtScore);
                }
                high = mid - 1;
            } else {
                proof {
                    if sound {
                        assert forall|p: int| root_index <= p <= tip_index && #[trigger] self.score_at(p) == Some(target)
                            implies p > mid by {
                            if p < mid {
                                assert(self.score_at(p).unwrap() + (mid - p) <= self.score_at(mid as int).unwrap());
                            }
                        }
                    }
                }
                if mid == high {
                    return Err(InquirerError::NoTxAtScore);
                }
                low = mid + 1;
            }
        }
    }
}

} // verus!
