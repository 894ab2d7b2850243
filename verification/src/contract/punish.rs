//! Punishment: when the other party publishes a commit transaction of a
//! version that has been superseded, its output can be swept.
//!
//! The published transaction carries the other party's decryption of our
//! adaptor signature. Together with the adaptor signature it gives away the
//! other party's secret publish key; the secret revocation key was handed over
//! when the version was superseded.

use vstd::prelude::*;
use crate::chain::descriptor::{
    descriptor_satisfaction, satisfaction_of, Descriptor, DescriptorView, Signer,
};
use crate::chain::fee::{check_fee, fee_covers};
use crate::chain::finalize::{finalize_with_witness, witnessed};
use crate::chain::transaction::{
    outpoint_paying_to, sighash_of, signature_hash, transaction_weight, weight_of, OutPointView, Transaction, TransactionView, TxOutView,
};
use crate::contract::graph::{
    input_of, paying_output, spending_input, transaction_of, SEQUENCE_FINAL, TX_VERSION,
};
use crate::contract::params::Address;
use crate::contract::payout::PUNISH_TX_FEE;
use crate::crypto::adaptor::{recover, recovery_of, sign, signature_of};
use crate::crypto::keys::{AdaptorSignature, PublicKey, SecretKey, Signature};
use crate::crypto::secp::{der_decoding, public_key_of, signature_from_der};
use crate::error::Error;

verus! {

/// The signature that an element of a witness holds: the element without its
/// last byte, the hash type, decoded from DER. An empty element holds none.
pub open spec fn element_signature(element: Seq<u8>) -> Option<Seq<u8>> {
    if element.len() == 0 {
        None
    } else {
        der_decoding(element.drop_last())
    }
}

/// The first decryption key that an adaptor signature gives away with one of
/// the signatures in a witness, from element `start` on.
pub open spec fn leaked_key_from(
    adaptor: Seq<u8>,
    witness: Seq<Seq<u8>>,
    encryption_point: Seq<u8>,
    start: int,
) -> Option<Seq<u8>>
    decreases witness.len() - start,
{
    if start < 0 || start >= witness.len() {
        None
    } else {
        match element_signature(witness[start]) {
            Some(signature) => match recovery_of(adaptor, signature, encryption_point) {
                Ok(sk) => Some(sk),
                Err(_) => leaked_key_from(adaptor, witness, encryption_point, start + 1),
            },
            None => leaked_key_from(adaptor, witness, encryption_point, start + 1),
        }
    }
}

/// The secret key of an encryption point, as the witness of a published
/// transaction gives it away to the holder of the adaptor signature.
pub open spec fn leaked_key(adaptor: Seq<u8>, witness: Seq<Seq<u8>>, encryption_point: Seq<u8>)
    -> Option<Seq<u8>> {
    leaked_key_from(adaptor, witness, encryption_point, 0)
}

fn signature_in(element: &Vec<u8>) -> (signature: Option<Signature>)
    ensures
        match signature {
            Some(s) => element_signature(element@) == Some(s@),
            None => element_signature(element@) is None,
        },
{
    if element.len() == 0 {
        return None;
    }
    let der = vstd::slice::slice_subrange(element.as_slice(), 0, element.len() - 1);
    assert(der@ =~= element@.drop_last());
    match signature_from_der(der) {
        Some(bytes) => Some(Signature { bytes }),
        None => None,
    }
}

/// Looks through a witness for a signature that, with the adaptor signature,
/// gives away the secret key of the encryption point.
pub fn recover_from_witness(
    adaptor: &AdaptorSignature,
    witness: &Vec<Vec<u8>>,
    encryption_point: &PublicKey,
) -> (sk: Option<SecretKey>)
    ensures
        match sk {
            Some(k) => leaked_key(adaptor@, witness.deep_view(), encryption_point@) == Some(k@)
                && public_key_of(k@) == Some(encryption_point@),
            None => leaked_key(adaptor@, witness.deep_view(), encryption_point@) is None,
        },
{
    let ghost stack = witness.deep_view();
    let mut i: usize = 0;
    while i < witness.len()
        invariant
            i <= witness@.len(),
            stack == witness.deep_view(),
            leaked_key(adaptor@, stack, encryption_point@) == leaked_key_from(
                adaptor@,
                stack,
                encryption_point@,
                i as int,
            ),
        decreases witness@.len() - i,
    {
        assert(stack[i as int] =~= witness@[i as int]@);
        match signature_in(&witness[i]) {
            Some(signature) => {
                match recover(adaptor, &signature, encryption_point) {
                    Ok(sk) => {
                        return Some(sk);
                    },
                    Err(_) => {},
                }
            },
            None => {},
        }
        i += 1;
    }
    None
}

/// The punish transaction before it is signed: it spends the commit output
/// into one output to the address, of the amount less the fee.
pub open spec fn punish_draft(commit_outpoint: OutPointView, commit_amount: u64, address: Seq<u8>)
    -> TransactionView {
    TransactionView {
        version: TX_VERSION,
        lock_time: 0,
        input: seq![input_of(commit_outpoint, SEQUENCE_FINAL)],
        output: seq![
            TxOutView { value: (commit_amount - PUNISH_TX_FEE) as u64, script_pubkey: address },
        ],
    }
}

/// The three signatures of a punish transaction, each with its key: our own,
/// and those under the other party's publish and revocation keys.
pub open spec fn punish_signers(
    sighash: Seq<u8>,
    sk: Seq<u8>,
    publish_them_sk: Seq<u8>,
    revocation_them_sk: Seq<u8>,
) -> Option<Seq<(Seq<u8>, Seq<u8>)>> {
    match (
        public_key_of(sk),
        signature_of(sighash, sk),
        public_key_of(publish_them_sk),
        signature_of(sighash, publish_them_sk),
        public_key_of(revocation_them_sk),
        signature_of(sighash, revocation_them_sk),
    ) {
        (
            Some(pk),
            Ok(sig),
            Some(publish_pk),
            Ok(publish_sig),
            Some(revocation_pk),
            Ok(revocation_sig),
        ) => Some(seq![(pk, sig), (publish_pk, publish_sig), (revocation_pk, revocation_sig)]),
        _ => None,
    }
}

/// The punish transaction, given the other party's secret publish key.
pub open spec fn punish_with_key(
    commit_descriptor: DescriptorView,
    address: Seq<u8>,
    sk: Seq<u8>,
    revocation_them_sk: Seq<u8>,
    publish_them_sk: Seq<u8>,
    revoked_commit_tx: TransactionView,
) -> Result<TransactionView, Error> {
    match outpoint_paying_to(revoked_commit_tx, commit_descriptor.script_pubkey) {
        None => Err(Error::NotPunishable),
        Some((commit_outpoint, commit_amount)) => {
            let draft = punish_draft(commit_outpoint, commit_amount, address);
            if commit_amount < PUNISH_TX_FEE {
                Err(Error::FeePolicyViolation)
            } else if !fee_covers(PUNISH_TX_FEE as int, weight_of(draft)) {
                Err(Error::FeePolicyViolation)
            } else {
                match punish_signers(
                    sighash_of(draft, 0, commit_descriptor.script_code, commit_amount),
                    sk,
                    publish_them_sk,
                    revocation_them_sk,
                ) {
                    None => Err(Error::NotPunishable),
                    Some(signers) => match satisfaction_of(commit_descriptor.text, signers) {
                        None => Err(Error::NotPunishable),
                        Some(witness) => Ok(witnessed(draft, witness)),
                    },
                }
            }
        },
    }
}

/// The punish transaction: the only input of the published commit transaction
/// must give away the other party's secret publish key, and the transaction
/// must pay to the commit descriptor.
pub open spec fn punish_transaction_of(
    commit_descriptor: DescriptorView,
    address: Seq<u8>,
    encsig: Seq<u8>,
    sk: Seq<u8>,
    revocation_them_sk: Seq<u8>,
    publish_them_pk: Seq<u8>,
    revoked_commit_tx: TransactionView,
) -> Result<TransactionView, Error> {
    if revoked_commit_tx.input.len() != 1 {
        Err(Error::NotPunishable)
    } else {
        match leaked_key(encsig, revoked_commit_tx.input[0].witness, publish_them_pk) {
            None => Err(Error::NotPunishable),
            Some(publish_them_sk) => punish_with_key(
                commit_descriptor,
                address,
                sk,
                revocation_them_sk,
                publish_them_sk,
                revoked_commit_tx,
            ),
        }
    }
}

/// A punish transaction sweeps the whole commit output: it spends the output
/// of the published transaction that pays to the commit descriptor, and pays
/// all of it, less the fee, to the address.
pub proof fn punishment_sweeps_commit_output(
    commit_descriptor: DescriptorView,
    address: Seq<u8>,
    encsig: Seq<u8>,
    sk: Seq<u8>,
    revocation_them_sk: Seq<u8>,
    publish_them_pk: Seq<u8>,
    revoked_commit_tx: TransactionView,
)
    ensures
        punish_transaction_of(
            commit_descriptor,
            address,
            encsig,
            sk,
            revocation_them_sk,
            publish_them_pk,
            revoked_commit_tx,
        ) matches Ok(tx) ==> {
            let spent = outpoint_paying_to(revoked_commit_tx, commit_descriptor.script_pubkey);
            &&& spent is Some
            &&& spent->Some_0.1 >= PUNISH_TX_FEE
            &&& tx.input.len() == 1
            &&& tx.input[0].previous_output == spent->Some_0.0
            &&& tx.output == seq![
                TxOutView {
                    value: (spent->Some_0.1 - PUNISH_TX_FEE) as u64,
                    script_pubkey: address,
                },
            ]
            &&& leaked_key(encsig, revoked_commit_tx.input[0].witness, publish_them_pk) is Some
        },
{
}

fn signer_of(sighash: &[u8; 32], sk: &SecretKey) -> (signer: Option<Signer>)
    ensures
        match signer {
            Some(s) => public_key_of(sk@) == Some(s.key@) && signature_of(sighash@, sk@) == Ok::<
                Seq<u8>,
                Error,
            >(s.signature@),
            None => public_key_of(sk@) is None || signature_of(sighash@, sk@) is Err,
        },
{
    match (sk.public_key(), sign(sighash, sk)) {
        (Some(key), Ok(signature)) => Some(Signer { key, signature }),
        _ => None,
    }
}

/// Builds and signs the punish transaction with the three secret keys of its
/// branch of the commit descriptor: our own, and the other party's publish and
/// revocation keys.
pub fn punish_with_keys(
    commit_descriptor: &Descriptor,
    address: &Address,
    sk: &SecretKey,
    revocation_them_sk: &SecretKey,
    publish_them_sk: &SecretKey,
    revoked_commit_tx: &Transaction,
) -> (tx: Result<Transaction, Error>)
    ensures
        match tx {
            Ok(t) => punish_with_key(
                commit_descriptor.deep_view(),
                address.deep_view(),
                sk@,
                revocation_them_sk@,
                publish_them_sk@,
                revoked_commit_tx.deep_view(),
            ) == Ok::<TransactionView, Error>(t.deep_view()),
            Err(e) => punish_with_key(
                commit_descriptor.deep_view(),
                address.deep_view(),
                sk@,
                revocation_them_sk@,
                publish_them_sk@,
                revoked_commit_tx.deep_view(),
            ) == Err::<TransactionView, Error>(e),
        },
{
    let (commit_outpoint, commit_amount) = match revoked_commit_tx.outpoint(
        commit_descriptor.script_pubkey(),
    ) {
        Some(found) => found,
        None => {
            return Err(Error::NotPunishable);
        },
    };
    if commit_amount < PUNISH_TX_FEE {
        return Err(Error::FeePolicyViolation);
    }
    let spend = spending_input(commit_outpoint, SEQUENCE_FINAL);
    let input = vec![spend];
    let pay = paying_output(commit_amount - PUNISH_TX_FEE, &address.script_pubkey);
    let output = vec![pay];
    proof {
        assert(input.deep_view() =~= seq![spend.deep_view()]);
        assert(output.deep_view() =~= seq![pay.deep_view()]);
    }
    let draft = transaction_of(input, output);
    assert(draft.deep_view() == punish_draft(
        commit_outpoint.deep_view(),
        commit_amount,
        address.deep_view(),
    ));
    if check_fee(PUNISH_TX_FEE as u128, 0, transaction_weight(&draft)).is_err() {
        return Err(Error::FeePolicyViolation);
    }
    let sighash = signature_hash(&draft, 0, commit_descriptor.script_code(), commit_amount);
    let signers = match (
        signer_of(&sighash, sk),
        signer_of(&sighash, publish_them_sk),
        signer_of(&sighash, revocation_them_sk),
    ) {
        (Some(own), Some(publish), Some(revocation)) => vec![own, publish, revocation],
        _ => {
            return Err(Error::NotPunishable);
        },
    };
    assert(Some(signers.deep_view()) =~= punish_signers(
        sighash@,
        sk@,
        publish_them_sk@,
        revocation_them_sk@,
    ));
    match descriptor_satisfaction(commit_descriptor.text(), &signers) {
        None => Err(Error::NotPunishable),
        Some(witness) => match finalize_with_witness(draft, Some(witness)) {
            Ok(tx) => Ok(tx),
            Err(_) => Err(Error::NotPunishable),
        },
    }
}

/// Sweeps the output of a commit transaction that the other party published
/// after its version was superseded.
///
/// The other party's signature is taken from the witness of the published
/// transaction; with our adaptor signature on the commit transaction it gives
/// away the other party's secret publish key. With that key, the other
/// party's secret revocation key and our own key, the commit output is paid to
/// the address, less the fee.
///
/// Fails with `NotPunishable` where the published transaction does not have
/// exactly one input, where no signature in its witness gives away the secret
/// key of `publish_them_pk`, where it does not pay to the commit descriptor,
/// or where the three signatures do not satisfy the descriptor, as when the
/// revocation key is that of another version; and with `FeePolicyViolation`
/// where the commit output does not cover the fee.
pub fn punish_transaction(
    commit_descriptor: &Descriptor,
    address: &Address,
    encsig: &AdaptorSignature,
    sk: &SecretKey,
    revocation_them_sk: &SecretKey,
    publish_them_pk: &PublicKey,
    revoked_commit_tx: &Transaction,
) -> (tx: Result<Transaction, Error>)
    ensures
        match tx {
            Ok(t) => punish_transaction_of(
                commit_descriptor.deep_view(),
                address.deep_view(),
                encsig@,
                sk@,
                revocation_them_sk@,
                publish_them_pk@,
                revoked_commit_tx.deep_view(),
            ) == Ok::<TransactionView, Error>(t.deep_view()),
            Err(e) => punish_transaction_of(
                commit_descriptor.deep_view(),
                address.deep_view(),
                encsig@,
                sk@,
                revocation_them_sk@,
                publish_them_pk@,
                revoked_commit_tx.deep_view(),
            ) == Err::<TransactionView, Error>(e),
        },
{
    if revoked_commit_tx.input.len() != 1 {
        return Err(Error::NotPunishable);
    }
    assert(revoked_commit_tx.deep_view().input[0].witness
        == revoked_commit_tx.input@[0].witness.deep_view());
    match recover_from_witness(encsig, &revoked_commit_tx.input[0].witness, publish_them_pk) {
        None => Err(Error::NotPunishable),
        Some(publish_them_sk) => punish_with_keys(
            commit_descriptor,
            address,
            sk,
            revocation_them_sk,
            &publish_them_sk,
            revoked_commit_tx,
        ),
    }
}

} // verus!
