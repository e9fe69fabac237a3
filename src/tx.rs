use vstd::prelude::*;

use crate::hash::TransactionId;

verus! {

/// A reference to output `index` of transaction `transaction_id`.
#[derive(Clone, Copy, Debug, PartialEq, Eq, Structural, Hash)]
pub struct TransactionOutpoint {
    pub transaction_id: TransactionId,
    pub index: u32,
}

/// The locking script of an output.
#[derive(Clone, Debug, PartialEq, Eq)]
pub struct ScriptPublicKey {
    pub version: u16,
    pub script: Vec<u8>,
}

pub struct ScriptPublicKeyView {
    pub version: u16,
    pub script: Seq<u8>,
}

impl View for ScriptPublicKey {
    type V = ScriptPublicKeyView;

    open spec fn view(&self) -> ScriptPublicKeyView {
        ScriptPublicKeyView { version: self.version, script: self.script@ }
    }
}

/// A value that can be copied with its view kept.
pub trait Duplicate: View + Sized {
    fn copy(&self) -> (r: Self)
        ensures
            r@ == self@,
    ;
}

/// Copies a byte string.
fn copy_bytes(v: &Vec<u8>) -> (r: Vec<u8>)
    ensures
        r@ == v@,
{
    let mut r: Vec<u8> = Vec::new();
    let mut i: usize = 0;
    while i < v.len()
        invariant
            i <= v.len(),
            r@ == v@.subrange(0, i as int),
        decreases v.len() - i,
    {
        r.push(v[i]);
        i += 1;
        assert(r@ =~= v@.subrange(0, i as int));
    }
    assert(r@ =~= v@);
    r
}

impl Duplicate for ScriptPublicKey {
    fn copy(&self) -> (r: ScriptPublicKey)
    {
        ScriptPublicKey { version: self.version, script: copy_bytes(&self.script) }
    }
}

/// One input of a transaction: the outpoint it spends and its unlocking data.
#[derive(Clone, Debug, PartialEq, Eq)]
pub struct TransactionInput {
    pub previous_outpoint: TransactionOutpoint,
    pub signature_script: Vec<u8>,
    pub sequence: u64,
    pub sig_op_count: u8,
}

pub struct TransactionInputView {
    pub previous_outpoint: TransactionOutpoint,
    pub signature_script: Seq<u8>,
    pub sequence: u64,
    pub sig_op_count: u8,
}

impl View for TransactionInput {
    type V = TransactionInputView;

    open spec fn view(&self) -> TransactionInputView {
        TransactionInputView {
            previous_outpoint: self.previous_outpoint,
            signature_script: self.signature_script@,
            sequence: self.sequence,
            sig_op_count: self.sig_op_count,
        }
    }
}

impl Duplicate for TransactionInput {
    fn copy(&self) -> (r: TransactionInput)
    {
        TransactionInput {
            previous_outpoint: self.previous_outpoint,
            signature_script: copy_bytes(&self.signature_script),
            sequence: self.sequence,
            sig_op_count: self.sig_op_count,
        }
    }
}

/// One output of a transaction: an amount locked by a script.
#[derive(Clone, Debug, PartialEq, Eq)]
pub struct TransactionOutput {
    pub value: u64,
    pub script_public_key: ScriptPublicKey,
}

pub struct TransactionOutputView {
    pub value: u64,
    pub script_public_key: ScriptPublicKeyView,
}

impl View for TransactionOutput {
    type V = TransactionOutputView;

    open spec fn view(&self) -> TransactionOutputView {
        TransactionOutputView { value: self.value, script_public_key: self.script_public_key@ }
    }
}

impl Duplicate for TransactionOutput {
    fn copy(&self) -> (r: TransactionOutput)
    {
        TransactionOutput { value: self.value, script_public_key: self.script_public_key.copy() }
    }
}

/// A transaction together with its (already computed) id.
#[derive(Clone, Debug, PartialEq, Eq)]
pub struct Transaction {
    pub version: u16,
    pub inputs: Vec<TransactionInput>,
    pub outputs: Vec<TransactionOutput>,
    pub lock_time: u64,
    pub coinbase: bool,
    pub gas: u64,
    pub payload: Vec<u8>,
    pub id: TransactionId,
}

pub struct TransactionView {
    pub version: u16,
    pub inputs: Seq<TransactionInputView>,
    pub outputs: Seq<TransactionOutputView>,
    pub lock_time: u64,
    pub coinbase: bool,
    pub gas: u64,
    pub payload: Seq<u8>,
    pub id: TransactionId,
}

impl View for Transaction {
    type V = TransactionView;

    open spec fn view(&self) -> TransactionView {
        TransactionView {
            version: self.version,
            inputs: self.inputs@.map_values(|i: TransactionInput| i@),
            outputs: self.outputs@.map_values(|o: TransactionOutput| o@),
            lock_time: self.lock_time,
            coinbase: self.coinbase,
            gas: self.gas,
            payload: self.payload@,
            id: self.id,
        }
    }
}

/// Copies each element of `v`.
fn copy_all<T: Duplicate>(v: &Vec<T>) -> (r: Vec<T>)
    ensures
        r@.map_values(|x: T| x@) == v@.map_values(|x: T| x@),
{
    let mut r: Vec<T> = Vec::new();
    let mut k: usize = 0;
    while k < v.len()
        invariant
            k <= v.len(),
            r@.len() == k,
            forall|j: int| 0 <= j < k ==> #[trigger] r@[j]@ == v@[j]@,
        decreases v.len() - k,
    {
        r.push(v[k].copy());
        k += 1;
    }
    assert(r@.map_values(|x: T| x@) =~= v@.map_values(|x: T| x@));
    r
}

impl Transaction {
    pub fn id(&self) -> (r: TransactionId)
        ensures
            r == self.id,
    {
        self.id
    }

    pub fn is_coinbase(&self) -> (r: bool)
        ensures
            r == self.coinbase,
    {
        self.coinbase
    }
}

impl Duplicate for Transaction {
    fn copy(&self) -> (r: Transaction)
    {
        Transaction {
            version: self.version,
            inputs: copy_all(&self.inputs),
            outputs: copy_all(&self.outputs),
            lock_time: self.lock_time,
            coinbase: self.coinbase,
            gas: self.gas,
            payload: copy_bytes(&self.payload),
            id: self.id,
        }
    }
}

/// An unspent output: its amount and script, the DAA score of the block that
/// accepted its creation, and whether a coinbase transaction created it.
#[derive(Clone, Debug, PartialEq, Eq)]
pub struct UtxoEntry {
    pub amount: u64,
    pub script_public_key: ScriptPublicKey,
    pub block_daa_score: u64,
    pub is_coinbase: bool,
}

pub struct UtxoEntryView {
    pub amount: u64,
    pub script_public_key: ScriptPublicKeyView,
    pub block_daa_score: u64,
    pub is_coinbase: bool,
}

impl View for UtxoEntry {
    type V = UtxoEntryView;

    open spec fn view(&self) -> UtxoEntryView {
        UtxoEntryView {
            amount: self.amount,
            script_public_key: self.script_public_key@,
            block_daa_score: self.block_daa_score,
            is_coinbase: self.is_coinbase,
        }
    }
}

impl UtxoEntry {
    pub fn new(amount: u64, script_public_key: ScriptPublicKey, block_daa_score: u64, is_coinbase: bool) -> (r: UtxoEntry)
        ensures
            r@ == (UtxoEntryView { amount, script_public_key: script_public_key@, block_daa_score, is_coinbase }),
    {
        UtxoEntry { amount, script_public_key, block_daa_score, is_coinbase }
    }
}

impl Duplicate for UtxoEntry {
    fn copy(&self) -> (r: UtxoEntry)
    {
        UtxoEntry {
            amount: self.amount,
            script_public_key: self.script_public_key.copy(),
            block_daa_score: self.block_daa_score,
            is_coinbase: self.is_coinbase,
        }
    }
}

/// The entry that output `index` of `tx` becomes once a chain block of DAA
/// score `daa_score` accepts `tx`.
pub open spec fn entry_of_output(tx: TransactionView, index: int, daa_score: u64) -> UtxoEntryView {
    UtxoEntryView {
        amount: tx.outputs[index].value,
        script_public_key: tx.outputs[index].script_public_key,
        block_daa_score: daa_score,
        is_coinbase: tx.coinbase,
    }
}

/// Builds the entry for output `index` of `tx`, or `None` when `tx` has no such output.
pub fn entry_from_output(tx: &Transaction, index: u32, daa_score: u64) -> (r: Option<UtxoEntry>)
    ensures
        match r {
            Some(e) => index < tx@.outputs.len() && e@ == entry_of_output(tx@, index as int, daa_score),
            None => index >= tx@.outputs.len(),
        },
{
    let i = index as usize;
    if i < tx.outputs.len() {
        let out = &tx.outputs[i];
        Some(UtxoEntry::new(out.value, out.script_public_key.copy(), daa_score, tx.is_coinbase()))
    } else {
        None
    }
}

/// A transaction with the entry spent by each of its inputs, in input order.
#[derive(Clone, Debug, PartialEq, Eq)]
pub struct SignableTransaction {
    pub tx: Transaction,
    pub entries: Vec<UtxoEntry>,
}

pub struct SignableTransactionView {
    pub tx: TransactionView,
    pub entries: Seq<UtxoEntryView>,
}

impl View for SignableTransaction {
    type V = SignableTransactionView;

    open spec fn view(&self) -> SignableTransactionView {
        SignableTransactionView { tx: self.tx@, entries: self.entries@.map_values(|e: UtxoEntry| e@) }
    }
}

impl SignableTransaction {
    pub fn with_entries(tx: Transaction, entries: Vec<UtxoEntry>) -> (r: SignableTransaction)
        ensures
            r@ == (SignableTransactionView { tx: tx@, entries: entries@.map_values(|e: UtxoEntry| e@) }),
    {
        SignableTransaction { tx, entries }
    }
}

} // verus!
