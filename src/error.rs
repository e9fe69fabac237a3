use vstd::prelude::*;

use crate::hash::{Digest, TransactionId};
use crate::tx::TransactionOutpoint;

verus! {

/// Why a lookup of accepted transactions failed. `Ids` is the type of the
/// list of queried ids that could not be found: a `Vec` at run time
/// (`UtxoInquirerError`) and a `Seq` in specifications (`UtxoInquirerErrorView`).
#[derive(Clone, Debug, PartialEq, Eq)]
pub enum InquirerError<Ids> {
    /// The queried DAA score lies below the retention root.
    AlreadyPruned,
    /// The header store holds no header for the block.
    MissingCompactHeaderForBlockHash(Digest),
    /// The block is not on the selected chain.
    MissingIndexForHash(Digest),
    /// The selected chain has no tip.
    MissingTipData,
    /// The selected chain holds no block at the position.
    MissingHashAtIndex(u64),
    /// No acceptance data is stored for the chain block.
    MissingAcceptanceDataForChainBlock(Digest),
    /// No UTXO diff is stored for the chain block.
    MissingUtxoDiffForChainBlock(Digest),
    /// The block transactions store holds nothing for the block.
    MissingBlockFromBlockTxStore(Digest),
    /// The block has no transaction at the index.
    MissingTransactionIndexOfBlock(usize, Digest),
    /// The acceptance data does not name the transaction.
    MissingContainingAcceptanceForTx(TransactionId),
    /// The stored transaction (first) is not the expected one (second).
    UnexpectedTransactionMismatch(TransactionId, TransactionId),
    /// No chain block has the queried DAA score.
    NoTxAtScore,
    /// These queried transactions are not in the acceptance data.
    MissingQueriedTransactions(Ids),
    /// No strategy could resolve the entry spent by an input.
    MissingUtxoEntryForOutpoint(TransactionOutpoint),
    /// The caller asked for an empty list of transactions.
    EmptyTransactionIdList,
    /// No chain block from the retention root to the tip merges the block.
    MissingAcceptingChainBlock(Digest),
}

pub type UtxoInquirerError = InquirerError<Vec<TransactionId>>;

pub type UtxoInquirerErrorView = InquirerError<Seq<TransactionId>>;

impl View for InquirerError<Vec<TransactionId>> {
    type V = UtxoInquirerErrorView;

    open spec fn view(&self) -> UtxoInquirerErrorView {
        match *self {
            InquirerError::AlreadyPruned => InquirerError::AlreadyPruned,
            InquirerError::MissingCompactHeaderForBlockHash(h) => InquirerError::MissingCompactHeaderForBlockHash(h),
            InquirerError::MissingIndexForHash(h) => InquirerError::MissingIndexForHash(h),
            InquirerError::MissingTipData => InquirerError::MissingTipData,
            InquirerError::MissingHashAtIndex(i) => InquirerError::MissingHashAtIndex(i),
            InquirerError::MissingAcceptanceDataForChainBlock(h) => InquirerError::MissingAcceptanceDataForChainBlock(h),
            InquirerError::MissingUtxoDiffForChainBlock(h) => InquirerError::MissingUtxoDiffForChainBlock(h),
            InquirerError::MissingBlockFromBlockTxStore(h) => InquirerError::MissingBlockFromBlockTxStore(h),
            InquirerError::MissingTransactionIndexOfBlock(i, h) => InquirerError::MissingTransactionIndexOfBlock(i, h),
            InquirerError::MissingContainingAcceptanceForTx(h) => InquirerError::MissingContainingAcceptanceForTx(h),
            InquirerError::UnexpectedTransactionMismatch(a, b) => InquirerError::UnexpectedTransactionMismatch(a, b),
            InquirerError::NoTxAtScore => InquirerError::NoTxAtScore,
            InquirerError::MissingQueriedTransactions(ids) => InquirerError::MissingQueriedTransactions(ids@),
            InquirerError::MissingUtxoEntryForOutpoint(o) => InquirerError::MissingUtxoEntryForOutpoint(o),
            InquirerError::EmptyTransactionIdList => InquirerError::EmptyTransactionIdList,
            InquirerError::MissingAcceptingChainBlock(h) => InquirerError::MissingAcceptingChainBlock(h),
        }
    }
}

} // verus!
