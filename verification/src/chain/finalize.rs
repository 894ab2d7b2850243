//! The signature hash of a transaction that spends an output of a descriptor,
//! and the witness that makes such a transaction valid.

use vstd::prelude::*;
use crate::chain::descriptor::{
    descriptor_satisfaction, satisfaction_of, Descriptor, DescriptorView, Signer,
};
use crate::chain::transaction::{
    sighash_of, signature_hash, Transaction, TransactionView, TxIn, TxInView,
};
use crate::crypto::keys::{PublicKey, Signature};
use crate::crypto::secp::{ecdsa_valid, ecdsa_verify};
use crate::error::Error;

verus! {

/// The hash that every signature on a spending transaction commits to: that of
/// its first input, for the script of the spent descriptor and the amount of
/// the spent output. A transaction without inputs has none.
pub open spec fn spending_sighash_of(
    tx: TransactionView,
    spent_descriptor: DescriptorView,
    spent_amount: u64,
) -> Option<Seq<u8>> {
    if tx.input.len() == 0 {
        None
    } else {
        Some(sighash_of(tx, 0, spent_descriptor.script_code, spent_amount))
    }
}

/// Computes the signature hash of a spending transaction. Every signer and
/// verifier of the protocol takes the hash from here, so that all of them
/// commit to the same script and amount.
pub fn spending_tx_sighash(tx: &Transaction, spent_descriptor: &Descriptor, spent_amount: u64) -> (hash:
    Option<[u8; 32]>)
    ensures
        match hash {
            Some(h) => spending_sighash_of(
                tx.deep_view(),
                spent_descriptor.deep_view(),
                spent_amount,
            ) == Some(h@),
            None => spending_sighash_of(
                tx.deep_view(),
                spent_descriptor.deep_view(),
                spent_amount,
            ) is None,
        },
{
    if tx.input.len() == 0 {
        None
    } else {
        Some(signature_hash(tx, 0, spent_descriptor.script_code(), spent_amount))
    }
}

/// A transaction with the witness of its only input replaced.
pub open spec fn witnessed(tx: TransactionView, witness: Seq<Seq<u8>>) -> TransactionView {
    TransactionView {
        version: tx.version,
        lock_time: tx.lock_time,
        input: seq![
            TxInView {
                previous_output: tx.input[0].previous_output,
                sequence: tx.input[0].sequence,
                witness,
            },
        ],
        output: tx.output,
    }
}

/// The transaction with a witness, where there is a witness and the
/// transaction has exactly one input.
pub open spec fn finalized_with(tx: TransactionView, witness: Option<Seq<Seq<u8>>>) -> Result<
    TransactionView,
    Error,
> {
    match witness {
        Some(w) if tx.input.len() == 1 => Ok(witnessed(tx, w)),
        _ => Err(Error::ScriptSatisfaction),
    }
}

/// Puts a witness on the only input of a transaction. Fails with
/// `ScriptSatisfaction` where there is no witness, or not exactly one input.
pub fn finalize_with_witness(tx: Transaction, witness: Option<Vec<Vec<u8>>>) -> (signed: Result<
    Transaction,
    Error,
>)
    ensures
        match signed {
            Ok(t) => finalized_with(
                tx.deep_view(),
                match witness {
                    Some(w) => Some(w.deep_view()),
                    None => None,
                },
            ) == Ok::<TransactionView, Error>(t.deep_view()),
            Err(e) => e == Error::ScriptSatisfaction && (witness is None || tx.input@.len() != 1),
        },
{
    let witness = match witness {
        Some(w) => w,
        None => {
            return Err(Error::ScriptSatisfaction);
        },
    };
    if tx.input.len() != 1 {
        return Err(Error::ScriptSatisfaction);
    }
    let ghost before = tx.deep_view();
    let Transaction { version, lock_time, input, output } = tx;
    let only = &input[0];
    assert(before.input[0] == only.deep_view());
    let signed_input = TxIn {
        previous_output: only.previous_output,
        sequence: only.sequence,
        witness,
    };
    let input = vec![signed_input];
    assert(input.deep_view() =~= seq![signed_input.deep_view()]);
    Ok(Transaction { version, lock_time, input, output })
}

/// The finalized transaction: the witness is the one that satisfies the
/// descriptor with the two signatures.
pub open spec fn finalized_of(
    tx: TransactionView,
    spent_descriptor: DescriptorView,
    first: (Seq<u8>, Seq<u8>),
    second: (Seq<u8>, Seq<u8>),
) -> Result<TransactionView, Error> {
    finalized_with(tx, satisfaction_of(spent_descriptor.text, seq![first, second]))
}

/// Makes a spending transaction valid: puts the two signatures into the
/// witness of its only input, in the order that the descriptor asks for. Fails
/// with `ScriptSatisfaction` where the two signatures, under their keys, do
/// not satisfy the descriptor, or where the transaction does not have exactly
/// one input.
pub fn finalize_spend_transaction(
    tx: Transaction,
    spent_descriptor: &Descriptor,
    first: (PublicKey, Signature),
    second: (PublicKey, Signature),
) -> (signed: Result<Transaction, Error>)
    ensures
        match signed {
            Ok(t) => finalized_of(
                tx.deep_view(),
                spent_descriptor.deep_view(),
                (first.0@, first.1@),
                (second.0@, second.1@),
            ) == Ok::<TransactionView, Error>(t.deep_view()),
            Err(e) => finalized_of(
                tx.deep_view(),
                spent_descriptor.deep_view(),
                (first.0@, first.1@),
                (second.0@, second.1@),
            ) == Err::<TransactionView, Error>(e),
        },
{
    let signers = vec![
        Signer { key: first.0, signature: first.1 },
        Signer { key: second.0, signature: second.1 },
    ];
    assert(signers.deep_view() =~= seq![(first.0@, first.1@), (second.0@, second.1@)]);
    let witness = descriptor_satisfaction(spent_descriptor.text(), &signers);
    finalize_with_witness(tx, witness)
}

/// The finalized transaction, once both signatures have been checked against
/// the signature hash of the spend.
pub open spec fn verified_finalized_of(
    tx: TransactionView,
    spent_descriptor: DescriptorView,
    spent_amount: u64,
    first: (Seq<u8>, Seq<u8>),
    second: (Seq<u8>, Seq<u8>),
) -> Result<TransactionView, Error> {
    match spending_sighash_of(tx, spent_descriptor, spent_amount) {
        Some(sighash) if ecdsa_valid(sighash, first.1, first.0) && ecdsa_valid(
            sighash,
            second.1,
            second.0,
        ) => finalized_of(tx, spent_descriptor, first, second),
        _ => Err(Error::ScriptSatisfaction),
    }
}

/// Makes a spending transaction valid as [`finalize_spend_transaction`] does,
/// after checking both signatures: fails with `ScriptSatisfaction` also where
/// a signature is not valid, under its key, for the signature hash of the
/// spend of `spent_amount`.
pub fn finalize_verified_spend(
    tx: Transaction,
    spent_descriptor: &Descriptor,
    spent_amount: u64,
    first: (PublicKey, Signature),
    second: (PublicKey, Signature),
) -> (signed: Result<Transaction, Error>)
    ensures
        match signed {
            Ok(t) => verified_finalized_of(
                tx.deep_view(),
                spent_descriptor.deep_view(),
                spent_amount,
                (first.0@, first.1@),
                (second.0@, second.1@),
            ) == Ok::<TransactionView, Error>(t.deep_view()),
            Err(e) => verified_finalized_of(
                tx.deep_view(),
                spent_descriptor.deep_view(),
                spent_amount,
                (first.0@, first.1@),
                (second.0@, second.1@),
            ) == Err::<TransactionView, Error>(e),
        },
{
    let valid = match spending_tx_sighash(&tx, spent_descriptor, spent_amount) {
        Some(sighash) => ecdsa_verify(&sighash, &first.1.bytes, &first.0.bytes) && ecdsa_verify(
            &sighash,
            &second.1.bytes,
            &second.0.bytes,
        ),
        None => false,
    };
    if valid {
        finalize_spend_transaction(tx, spent_descriptor, first, second)
    } else {
        Err(Error::ScriptSatisfaction)
    }
}

} // verus!
