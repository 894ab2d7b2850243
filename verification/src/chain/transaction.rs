//! Transactions as the protocol reads and writes them, with the functions of
//! the crate `bitcoin` that give a transaction its identifier, its
//! weight and its signature hash.

use vstd::prelude::*;
use bitcoin::hashes::Hash as Digest;
use bitcoin::util::bip143::SigHashCache;
use bitcoin::{Script, SigHashType};

verus! {

/// A reference to an output of a transaction.
#[derive(Clone, Copy, Debug, PartialEq, Eq)]
pub struct OutPoint {
    /// The identifier of the transaction, in the byte order of its hash.
    pub txid: [u8; 32],
    /// The index of the output.
    pub vout: u32,
}

/// A transaction input. The script signature is always empty: every output
/// that the protocol spends is a witness program.
#[derive(Clone, Debug, PartialEq, Eq)]
pub struct TxIn {
    pub previous_output: OutPoint,
    pub sequence: u32,
    pub witness: Vec<Vec<u8>>,
}

/// A transaction output.
#[derive(Clone, Debug, PartialEq, Eq)]
pub struct TxOut {
    /// The value in satoshi.
    pub value: u64,
    pub script_pubkey: Vec<u8>,
}

/// A transaction.
#[derive(Clone, Debug, PartialEq, Eq)]
pub struct Transaction {
    pub version: i32,
    pub lock_time: u32,
    pub input: Vec<TxIn>,
    pub output: Vec<TxOut>,
}

/// What an [`OutPoint`] holds.
pub struct OutPointView {
    pub txid: Seq<u8>,
    pub vout: u32,
}

/// What a [`TxIn`] holds.
pub struct TxInView {
    pub previous_output: OutPointView,
    pub sequence: u32,
    pub witness: Seq<Seq<u8>>,
}

/// What a [`TxOut`] holds.
pub struct TxOutView {
    pub value: u64,
    pub script_pubkey: Seq<u8>,
}

/// What a [`Transaction`] holds.
pub struct TransactionView {
    pub version: i32,
    pub lock_time: u32,
    pub input: Seq<TxInView>,
    pub output: Seq<TxOutView>,
}

impl DeepView for OutPoint {
    type V = OutPointView;

    open spec fn deep_view(&self) -> OutPointView {
        OutPointView { txid: self.txid@, vout: self.vout }
    }
}

impl DeepView for TxIn {
    type V = TxInView;

    open spec fn deep_view(&self) -> TxInView {
        TxInView {
            previous_output: self.previous_output.deep_view(),
            sequence: self.sequence,
            witness: self.witness.deep_view(),
        }
    }
}

impl DeepView for TxOut {
    type V = TxOutView;

    open spec fn deep_view(&self) -> TxOutView {
        TxOutView { value: self.value, script_pubkey: self.script_pubkey@ }
    }
}

impl DeepView for Transaction {
    type V = TransactionView;

    open spec fn deep_view(&self) -> TransactionView {
        TransactionView {
            version: self.version,
            lock_time: self.lock_time,
            input: self.input.deep_view(),
            output: self.output.deep_view(),
        }
    }
}

/// The identifier of a transaction: the double SHA-256 of its encoding without
/// witnesses.
pub uninterp spec fn txid_of(tx: TransactionView) -> Seq<u8>;

/// The weight of a transaction in weight units.
pub uninterp spec fn weight_of(tx: TransactionView) -> nat;

/// The hash that a signature on one input of a transaction commits to, for the
/// script and the value of the output that the input spends, with the hash type
/// that covers every input and output.
pub uninterp spec fn sighash_of(
    tx: TransactionView,
    input_index: nat,
    script_code: Seq<u8>,
    value: u64,
) -> Seq<u8>;

/// The least value that an output with this script must hold to be relayed.
pub uninterp spec fn dust_value_of(script_pubkey: Seq<u8>) -> u64;

/// Calls `Transaction::txid`. Trusted: the result is the identifier that
/// [`txid_of`] names.
#[verifier::external_body]
pub(crate) fn transaction_id(tx: &Transaction) -> (id: [u8; 32])
    ensures
        id@ == txid_of(tx.deep_view()),
{
    let input = tx.input.iter().map(|i| bitcoin::TxIn {
        previous_output: bitcoin::OutPoint::new(Digest::from_inner(i.previous_output.txid), i.previous_output.vout),
        script_sig: Script::new(),
        sequence: i.sequence,
        witness: i.witness.clone(),
    }).collect();
    let output = tx.output.iter().map(|o| bitcoin::TxOut {
        value: o.value,
        script_pubkey: o.script_pubkey.clone().into(),
    }).collect();
    let tx = bitcoin::Transaction { version: tx.version, lock_time: tx.lock_time, input, output };
    Digest::into_inner(tx.txid())
}

/// Calls `Transaction::get_weight`. Trusted: the result is the weight that
/// [`weight_of`] names.
#[verifier::external_body]
pub(crate) fn transaction_weight(tx: &Transaction) -> (weight: usize)
    ensures
        weight == weight_of(tx.deep_view()),
{
    let input = tx.input.iter().map(|i| bitcoin::TxIn {
        previous_output: bitcoin::OutPoint::new(Digest::from_inner(i.previous_output.txid), i.previous_output.vout),
        script_sig: Script::new(),
        sequence: i.sequence,
        witness: i.witness.clone(),
    }).collect();
    let output = tx.output.iter().map(|o| bitcoin::TxOut {
        value: o.value,
        script_pubkey: o.script_pubkey.clone().into(),
    }).collect();
    bitcoin::Transaction { version: tx.version, lock_time: tx.lock_time, input, output }.get_weight()
}

/// Calls `SigHashCache::signature_hash` with `SigHashType::All`. Trusted: the
/// result is the hash that [`sighash_of`] names. `signature_hash` panics on
/// an index that is no input of the transaction.
#[verifier::external_body]
pub(crate) fn signature_hash(
    tx: &Transaction,
    input_index: usize,
    script_code: &Vec<u8>,
    value: u64,
) -> (hash: [u8; 32])
    requires
        input_index < tx.input@.len(),
    ensures
        hash@ == sighash_of(tx.deep_view(), input_index as nat, script_code@, value),
{
    let input = tx.input.iter().map(|i| bitcoin::TxIn {
        previous_output: bitcoin::OutPoint::new(Digest::from_inner(i.previous_output.txid), i.previous_output.vout),
        script_sig: Script::new(),
        sequence: i.sequence,
        witness: i.witness.clone(),
    }).collect();
    let output = tx.output.iter().map(|o| bitcoin::TxOut {
        value: o.value,
        script_pubkey: o.script_pubkey.clone().into(),
    }).collect();
    let tx = bitcoin::Transaction { version: tx.version, lock_time: tx.lock_time, input, output };
    let code = Script::from(script_code.clone());
    let mut cache = SigHashCache::new(&tx);
    Digest::into_inner(cache.signature_hash(input_index, &code, value, SigHashType::All))
}

/// Calls `Script::dust_value`. Trusted: the result is the value that
/// [`dust_value_of`] names.
#[verifier::external_body]
pub(crate) fn dust_value(script_pubkey: &Vec<u8>) -> (value: u64)
    ensures
        value == dust_value_of(script_pubkey@),
{
    Script::from(script_pubkey.clone()).dust_value().as_sat()
}

/// The index of the first output from `start` on that pays to a script.
pub open spec fn position_from(outputs: Seq<TxOutView>, script_pubkey: Seq<u8>, start: int)
    -> Option<int>
    decreases outputs.len() - start,
{
    if start < 0 || start >= outputs.len() {
        None
    } else if outputs[start].script_pubkey == script_pubkey {
        Some(start)
    } else {
        position_from(outputs, script_pubkey, start + 1)
    }
}

/// The outpoint of the first output of a transaction that pays to a script,
/// with the value of that output; `None` where no output among the first
/// 2^32 does.
pub open spec fn outpoint_paying_to(tx: TransactionView, script_pubkey: Seq<u8>) -> Option<
    (OutPointView, u64),
> {
    match position_from(tx.output, script_pubkey, 0) {
        Some(index) if index <= u32::MAX => Some(
            (OutPointView { txid: txid_of(tx), vout: index as u32 }, tx.output[index].value),
        ),
        _ => None,
    }
}

impl Transaction {
    /// Finds the first output that pays to a script: its outpoint and its
    /// value.
    pub fn outpoint(&self, script_pubkey: &Vec<u8>) -> (found: Option<(OutPoint, u64)>)
        ensures
            match found {
                Some((outpoint, value)) => outpoint_paying_to(self.deep_view(), script_pubkey@)
                    == Some((outpoint.deep_view(), value)),
                None => outpoint_paying_to(self.deep_view(), script_pubkey@) is None,
            },
    {
        let ghost outputs = self.deep_view().output;
        let mut i: usize = 0;
        while i < self.output.len()
            invariant
                i <= self.output@.len(),
                outputs == self.deep_view().output,
                position_from(outputs, script_pubkey@, 0) == position_from(
                    outputs,
                    script_pubkey@,
                    i as int,
                ),
            decreases self.output@.len() - i,
        {
            assert(outputs[i as int] == self.output@[i as int].deep_view());
            if crate::bytes::bytes_eq(
                self.output[i].script_pubkey.as_slice(),
                script_pubkey.as_slice(),
            ) {
                if i > u32::MAX as usize {
                    return None;
                }
                let outpoint = OutPoint { txid: transaction_id(self), vout: i as u32 };
                return Some((outpoint, self.output[i].value));
            }
            i += 1;
        }
        None
    }
}

impl TxIn {
    /// A copy of the input.
    pub fn clone_input(&self) -> (copy: TxIn)
        ensures
            copy.deep_view() == self.deep_view(),
    {
        TxIn {
            previous_output: self.previous_output,
            sequence: self.sequence,
            witness: crate::bytes::copy_stack(&self.witness),
        }
    }
}

impl TxOut {
    /// A copy of the output.
    pub fn clone_output(&self) -> (copy: TxOut)
        ensures
            copy.deep_view() == self.deep_view(),
    {
        TxOut {
            value: self.value,
            script_pubkey: crate::bytes::copy_bytes(self.script_pubkey.as_slice()),
        }
    }
}

impl Transaction {
    /// A copy of the transaction.
    pub fn clone_transaction(&self) -> (copy: Transaction)
        ensures
            copy.deep_view() == self.deep_view(),
    {
        let mut input: Vec<TxIn> = Vec::new();
        let mut i: usize = 0;
        while i < self.input.len()
            invariant
                i <= self.input@.len(),
                input@.len() == i,
                forall|j: int|
                    0 <= j < i ==> (#[trigger] input@[j]).deep_view() == self.input@[j].deep_view(),
            decreases self.input@.len() - i,
        {
            input.push(self.input[i].clone_input());
            i += 1;
        }
        let mut output: Vec<TxOut> = Vec::new();
        let mut k: usize = 0;
        while k < self.output.len()
            invariant
                k <= self.output@.len(),
                output@.len() == k,
                forall|j: int|
                    0 <= j < k ==> (#[trigger] output@[j]).deep_view()
                        == self.output@[j].deep_view(),
            decreases self.output@.len() - k,
        {
            output.push(self.output[k].clone_output());
            k += 1;
        }
        assert(input.deep_view() =~= self.input.deep_view());
        assert(output.deep_view() =~= self.output.deep_view());
        Transaction { version: self.version, lock_time: self.lock_time, input, output }
    }
}

} // verus!
