use vstd::prelude::*;

use crate::error::{InquirerError, UtxoInquirerError, UtxoInquirerErrorView};
use crate::hash::{Digest, TransactionId};

verus! {

/// A transaction accepted from a merged block, with its position in that block.
#[derive(Clone, Copy, Debug, PartialEq, Eq, Structural)]
pub struct AcceptedTxEntry {
    pub transaction_id: TransactionId,
    pub index_within_block: u32,
}

/// The transactions that one merged block contributed to an accepting chain
/// block, in acceptance order.
#[derive(Clone, Debug, PartialEq, Eq)]
pub struct MergesetBlockAcceptanceData {
    pub block_hash: Digest,
    pub accepted_transactions: Vec<AcceptedTxEntry>,
}

/// The acceptance record of one chain block: one entry per merged block.
pub type AcceptanceData = Vec<MergesetBlockAcceptanceData>;

/// The index within its block of the first entry of `entries` for transaction `id`.
pub open spec fn index_in_block(entries: Seq<AcceptedTxEntry>, id: TransactionId) -> Option<u32>
    decreases entries.len(),
{
    if entries.len() == 0 {
        None
    } else if entries[0].transaction_id == id {
        Some(entries[0].index_within_block)
    } else {
        index_in_block(entries.drop_first(), id)
    }
}

/// The merged block and index within it of the first acceptance of transaction
/// `id`, scanning merged blocks in order and each block's entries in order.
pub open spec fn containing_block(data: Seq<MergesetBlockAcceptanceData>, id: TransactionId) -> Option<(Digest, u32)>
    decreases data.len(),
{
    if data.len() == 0 {
        None
    } else {
        match index_in_block(data[0].accepted_transactions@, id) {
            Some(ix) => Some((data[0].block_hash, ix)),
            None => containing_block(data.drop_first(), id),
        }
    }
}

/// The ids of `ids` that `data` does not accept, in query order.
pub open spec fn missing_ids(ids: Seq<TransactionId>, data: Seq<MergesetBlockAcceptanceData>) -> Seq<TransactionId>
    decreases ids.len(),
{
    if ids.len() == 0 {
        Seq::empty()
    } else if containing_block(data, ids.last()) is None {
        missing_ids(ids.drop_last(), data).push(ids.last())
    } else {
        missing_ids(ids.drop_last(), data)
    }
}

/// The outcome of locating every id of `ids` in `data`: the location of each,
/// in query order, or the list of those that are missing.
pub open spec fn locations_of(ids: Seq<TransactionId>, data: Seq<MergesetBlockAcceptanceData>) -> Result<Seq<(Digest, u32)>, UtxoInquirerErrorView> {
    if missing_ids(ids, data).len() > 0 {
        Err(InquirerError::MissingQueriedTransactions(missing_ids(ids, data)))
    } else {
        Ok(ids.map_values(|id: TransactionId| containing_block(data, id).unwrap()))
    }
}

pub open spec fn locations_view(r: Result<Vec<(Digest, u32)>, UtxoInquirerError>) -> Result<Seq<(Digest, u32)>, UtxoInquirerErrorView> {
    match r {
        Ok(v) => Ok(v@),
        Err(e) => Err(e@),
    }
}

/// Finds the first entry for transaction `id` among `entries`.
fn find_in_block(entries: &Vec<AcceptedTxEntry>, id: &TransactionId) -> (r: Option<u32>)
    ensures
        r == index_in_block(entries@, *id),
{
    let mut j: usize = 0;
    assert(entries@.subrange(0, entries@.len() as int) =~= entries@);
    while j < entries.len()
        invariant
            j <= entries@.len(),
            index_in_block(entries@, *id) == index_in_block(entries@.subrange(j as int, entries@.len() as int), *id),
        decreases entries@.len() - j,
    {
        assert(entries@.subrange(j as int, entries@.len() as int).drop_first() =~= entries@.subrange(j + 1, entries@.len() as int));
        if entries[j].transaction_id == *id {
            return Some(entries[j].index_within_block);
        }
        j += 1;
    }
    None
}

/// Finds the merged block that contributed transaction `id` to an accepting
/// chain block, and the transaction's index within that block.
pub fn locate_single(id: &TransactionId, data: &AcceptanceData) -> (r: Option<(Digest, u32)>)
    ensures
        r == containing_block(data@, *id),
{
    let mut i: usize = 0;
    assert(data@.subrange(0, data@.len() as int) =~= data@);
    while i < data.len()
        invariant
            i <= data@.len(),
            containing_block(data@, *id) == containing_block(data@.subrange(i as int, data@.len() as int), *id),
        decreases data@.len() - i,
    {
        assert(data@.subrange(i as int, data@.len() as int).drop_first() =~= data@.subrange(i + 1, data@.len() as int));
        match find_in_block(&data[i].accepted_transactions, id) {
            Some(ix) => {
                return Some((data[i].block_hash, ix));
            },
            None => {},
        }
        i += 1;
    }
    None
}

/// The first entry for `id` in `a + b` is its first entry in `a`, else in `b`.
pub proof fn lemma_index_in_block_concat(a: Seq<AcceptedTxEntry>, b: Seq<AcceptedTxEntry>, id: TransactionId)
    ensures
        index_in_block(a + b, id) == match index_in_block(a, id) {
            Some(ix) => Some(ix),
            None => index_in_block(b, id),
        },
    decreases a.len(),
{
    if a.len() == 0 {
        assert(a + b =~= b);
    } else {
        assert((a + b).drop_first() =~= a.drop_first() + b);
        lemma_index_in_block_concat(a.drop_first(), b, id);
    }
}

/// The first acceptance of `id` in `a + b` is its first in `a`, else in `b`.
pub proof fn lemma_containing_block_concat(a: Seq<MergesetBlockAcceptanceData>, b: Seq<MergesetBlockAcceptanceData>, id: TransactionId)
    ensures
        containing_block(a + b, id) == match containing_block(a, id) {
            Some(loc) => Some(loc),
            None => containing_block(b, id),
        },
    decreases a.len(),
{
    if a.len() == 0 {
        assert(a + b =~= b);
    } else {
        assert((a + b).drop_first() =~= a.drop_first() + b);
        assert((a + b)[0] == a[0]);
        lemma_containing_block_concat(a.drop_first(), b, id);
    }
}

/// The first acceptance of `id` among the merged blocks before `i`, else
/// among the first `j` entries of merged block `i`.
pub open spec fn found_in_prefix(data: Seq<MergesetBlockAcceptanceData>, i: int, j: int, id: TransactionId) -> Option<(Digest, u32)> {
    match containing_block(data.subrange(0, i), id) {
        Some(loc) => Some(loc),
        None => match index_in_block(data[i].accepted_transactions@.subrange(0, j), id) {
            Some(ix) => Some((data[i].block_hash, ix)),
            None => None,
        },
    }
}

/// Scanning merged block `i` through its end extends the scanned prefix by that block.
proof fn lemma_block_scanned(data: Seq<MergesetBlockAcceptanceData>, i: int, id: TransactionId)
    requires
        0 <= i < data.len(),
    ensures
        found_in_prefix(data, i, data[i].accepted_transactions@.len() as int, id) == containing_block(data.subrange(0, i + 1), id),
{
    let acc = data[i].accepted_transactions@;
    assert(acc.subrange(0, acc.len() as int) =~= acc);
    assert(data.subrange(0, i + 1) =~= data.subrange(0, i) + seq![data[i]]);
    lemma_containing_block_concat(data.subrange(0, i), seq![data[i]], id);
    let one = seq![data[i]];
    assert(one.drop_first() =~= Seq::<MergesetBlockAcceptanceData>::empty());
    assert(containing_block(one.drop_first(), id) is None);
    assert(one[0] == data[i]);
    assert(containing_block(one, id) == match index_in_block(acc, id) {
        Some(ix) => Some((data[i].block_hash, ix)),
        None => containing_block(one.drop_first(), id),
    });
}

/// Scanning one more entry of merged block `i`.
proof fn lemma_entry_scanned(data: Seq<MergesetBlockAcceptanceData>, i: int, j: int, id: TransactionId)
    requires
        0 <= i < data.len(),
        0 <= j < data[i].accepted_transactions@.len(),
    ensures
        found_in_prefix(data, i, j + 1, id) == match found_in_prefix(data, i, j, id) {
            Some(loc) => Some(loc),
            None => if data[i].accepted_transactions@[j].transaction_id == id {
                Some((data[i].block_hash, data[i].accepted_transactions@[j].index_within_block))
            } else {
                None
            },
        },
{
    let acc = data[i].accepted_transactions@;
    assert(acc.subrange(0, j + 1) =~= acc.subrange(0, j) + seq![acc[j]]);
    lemma_index_in_block_concat(acc.subrange(0, j), seq![acc[j]], id);
    let one = seq![acc[j]];
    assert(one.drop_first() =~= Seq::<AcceptedTxEntry>::empty());
    assert(index_in_block(one.drop_first(), id) is None);
    assert(one[0] == acc[j]);
    assert(index_in_block(one, id) == if acc[j].transaction_id == id {
        Some(acc[j].index_within_block)
    } else {
        index_in_block(one.drop_first(), id)
    });
}

/// Whether every slot of `found` is filled.
fn all_found(found: &Vec<Option<(Digest, u32)>>) -> (r: bool)
    ensures
        r == forall|k: int| 0 <= k < found@.len() ==> #[trigger] found@[k] is Some,
{
    let mut k: usize = 0;
    while k < found.len()
        invariant
            k <= found@.len(),
            forall|m: int| 0 <= m < k ==> #[trigger] found@[m] is Some,
        decreases found@.len() - k,
    {
        if found[k].is_none() {
            return false;
        }
        k += 1;
    }
    true
}

/// Locates every transaction of `ids` in `data`. On success the result holds
/// the location of each id, in query order; otherwise the error names exactly
/// the ids that `data` does not accept.
///
/// The acceptance data is scanned once, merged block by merged block, and the
/// scan stops after the block in which the last requested id is found.
pub fn locate_many(ids: &Vec<TransactionId>, data: &AcceptanceData) -> (r: Result<Vec<(Digest, u32)>, UtxoInquirerError>)
    ensures
        locations_view(r) == locations_of(ids@, data@),
{
    let n = ids.len();
    let mut found: Vec<Option<(Digest, u32)>> = Vec::new();
    while found.len() < n
        invariant
            found@.len() <= n,
            forall|k: int| 0 <= k < found@.len() ==> #[trigger] found@[k] is None,
        decreases n - found@.len(),
    {
        found.push(None);
    }
    assert(data@.subrange(0, 0) =~= Seq::<MergesetBlockAcceptanceData>::empty());
    let mut i: usize = 0;
    let mut done = all_found(&found);
    while i < data.len() && !done
        invariant
            i <= data@.len(),
            found@.len() == n,
            n == ids@.len(),
            forall|k: int| 0 <= k < n ==> #[trigger] found@[k] == containing_block(data@.subrange(0, i as int), ids@[k]),
            done == forall|k: int| 0 <= k < found@.len() ==> #[trigger] found@[k] is Some,
        decreases data@.len() - i,
    {
        let block = &data[i];
        let mut j: usize = 0;
        proof {
            assert forall|k: int| 0 <= k < n implies #[trigger] found@[k] == found_in_prefix(data@, i as int, 0, ids@[k]) by {
                assert(block.accepted_transactions@.subrange(0, 0) =~= Seq::<AcceptedTxEntry>::empty());
            }
        }
        while j < block.accepted_transactions.len()
            invariant
                i < data@.len(),
                block == data@[i as int],
                j <= block.accepted_transactions@.len(),
                found@.len() == n,
                n == ids@.len(),
                forall|k: int| 0 <= k < n ==> #[trigger] found@[k] == found_in_prefix(data@, i as int, j as int, ids@[k]),
            decreases block.accepted_transactions@.len() - j,
        {
            let entry = block.accepted_transactions[j];
            let ghost before = found@;
            let mut k: usize = 0;
            while k < n
                invariant
                    k <= n,
                    found@.len() == n,
                    n == ids@.len(),
                    before.len() == n,
                    forall|m: int| k <= m < n ==> #[trigger] found@[m] == before[m],
                    forall|m: int| 0 <= m < k ==> #[trigger] found@[m] == match before[m] {
                        Some(loc) => Some(loc),
                        None => if entry.transaction_id == ids@[m] {
                            Some((block.block_hash, entry.index_within_block))
                        } else {
                            None
                        },
                    },
                decreases n - k,
            {
                if found[k].is_none() && ids[k] == entry.transaction_id {
                    found.set(k, Some((block.block_hash, entry.index_within_block)));
                }
                k += 1;
            }
            proof {
                assert forall|m: int| 0 <= m < n implies #[trigger] found@[m] == found_in_prefix(data@, i as int, j + 1, ids@[m]) by {
                    lemma_entry_scanned(data@, i as int, j as int, ids@[m]);
                }
            }
            j += 1;
        }
        proof {
            assert forall|k: int| 0 <= k < n implies #[trigger] found@[k] == containing_block(data@.subrange(0, i + 1), ids@[k]) by {
                lemma_block_scanned(data@, i as int, ids@[k]);
            }
        }
        i += 1;
        done = all_found(&found);
    }
    proof {
        assert(data@ =~= data@.subrange(0, i as int) + data@.subrange(i as int, data@.len() as int));
        assert forall|k: int| 0 <= k < n implies #[trigger] found@[k] == containing_block(data@, ids@[k]) by {
            lemma_containing_block_concat(data@.subrange(0, i as int), data@.subrange(i as int, data@.len() as int), ids@[k]);
            if i == data@.len() {
                assert(data@.subrange(0, i as int) =~= data@);
            }
        }
    }
    let mut locations: Vec<(Digest, u32)> = Vec::new();
    let mut missing: Vec<TransactionId> = Vec::new();
    let mut k: usize = 0;
    while k < n
        invariant
            k <= n,
            n == ids@.len(),
            found@.len() == n,
            forall|m: int| 0 <= m < n ==> #[trigger] found@[m] == containing_block(data@, ids@[m]),
            missing@ == missing_ids(ids@.subrange(0, k as int), data@),
            missing@.len() == 0 ==> locations@.len() == k,
            missing@.len() == 0 ==> forall|m: int| 0 <= m < k ==> Some(#[trigger] locations@[m]) == containing_block(data@, ids@[m]),
        decreases n - k,
    {
        let ghost prefix = ids@.subrange(0, k + 1);
        assert(prefix.drop_last() =~= ids@.subrange(0, k as int));
        assert(prefix.last() == ids@[k as int]);
        match found[k] {
            Some(loc) => {
                locations.push(loc);
            },
            None => {
                missing.push(ids[k]);
            },
        }
        k += 1;
    }
    assert(ids@.subrange(0, ids@.len() as int) =~= ids@);
    if missing.len() > 0 {
        Err(InquirerError::MissingQueriedTransactions(missing))
    } else {
        assert(locations@ =~= ids@.map_values(|id: TransactionId| containing_block(data@, id).unwrap()));
        Ok(locations)
    }
}

} // verus!
