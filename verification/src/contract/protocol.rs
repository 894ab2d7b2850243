//! The bundle of transactions that one party holds of a contract, and how it
//! is built at the start of the contract and at each renewal.
//!
//! Each party builds its own bundle from the same public parameters and its
//! own secret key. The transactions of the two bundles are the same; the
//! signatures differ.

use vstd::prelude::*;
use crate::bytes::copy_bytes;
use crate::chain::descriptor::{
    commit_descriptor, commit_descriptor_of, lock_descriptor, lock_descriptor_of, CommitKeys,
    Descriptor, DescriptorView,
};
use crate::chain::fee::{output_total, output_total_of_joined};
use crate::chain::transaction::{
    dust_value_of, outpoint_paying_to, sighash_of, signature_hash, transaction_id, txid_of,
    OutPoint, OutPointView, Transaction, TransactionView,
};
use crate::contract::graph::{
    cet_of, commit_transaction, commit_transaction_of, contract_execution_transaction,
    lock_transaction, lock_transaction_of, paid_output, refund_transaction,
    refund_transaction_of, };
use crate::contract::params::{
    Address, OracleParams, Party, PartyParams, PartyParamsView, PartyView, Payout, PayoutView,
    PunishParams,
};
use crate::contract::payout::{after_fee, fee_is_paid, COMMIT_TX_FEE, SETTLEMENT_COST, SETTLEMENT_TX_FEE};
use crate::crypto::adaptor::{encrypt_with_aux, encryption_of, sign, signature_of};
use crate::crypto::keys::{AdaptorSignature, PublicKey, SecretKey, Signature, XOnlyPublicKey};
use crate::crypto::oracle::{compute_signature_point, signature_point_of};
use crate::crypto::secp::{adaptor_valid, ecdsa_valid, fresh_randomness, public_key_of};
use crate::error::Error;

verus! {

/// A contract execution transaction with our adaptor signature on it, and the
/// outcome that it is for.
#[derive(Clone, Debug)]
pub struct Cet {
    pub tx: Transaction,
    pub encsig: AdaptorSignature,
    pub outcome_message: Vec<u8>,
    pub nonce_pk: XOnlyPublicKey,
}

/// What a [`Cet`] holds.
pub struct CetView {
    pub tx: TransactionView,
    pub encsig: Seq<u8>,
    pub outcome_message: Seq<u8>,
    pub nonce_pk: Seq<u8>,
}

impl DeepView for Cet {
    type V = CetView;

    open spec fn deep_view(&self) -> CetView {
        CetView {
            tx: self.tx.deep_view(),
            encsig: self.encsig@,
            outcome_message: self.outcome_message@,
            nonce_pk: self.nonce_pk@,
        }
    }
}

/// The transactions of a contract as one party holds them: the lock
/// transaction, not signed; the commit transaction with our adaptor signature,
/// encrypted to the other party's publish key; the refund transaction with our
/// signature; and one contract execution transaction for each outcome, with
/// our adaptor signature encrypted to the signature point of the outcome.
#[derive(Debug)]
pub struct CfdTransactions {
    pub lock: Transaction,
    pub commit: (Transaction, AdaptorSignature),
    pub refund: (Transaction, Signature),
    pub cets: Vec<Cet>,
}

/// What a [`CfdTransactions`] holds.
pub struct CfdTransactionsView {
    pub lock: TransactionView,
    pub commit: (TransactionView, Seq<u8>),
    pub refund: (TransactionView, Seq<u8>),
    pub cets: Seq<CetView>,
}

impl DeepView for CfdTransactions {
    type V = CfdTransactionsView;

    open spec fn deep_view(&self) -> CfdTransactionsView {
        CfdTransactionsView {
            lock: self.lock.deep_view(),
            commit: (self.commit.0.deep_view(), self.commit.1@),
            refund: (self.refund.0.deep_view(), self.refund.1@),
            cets: self.cets.deep_view(),
        }
    }
}

/// Whether a result holds the expected bundle, or the expected error.
pub open spec fn bundle_matches(
    result: Result<CfdTransactions, Error>,
    expected: Result<CfdTransactionsView, Error>,
) -> bool {
    match result {
        Ok(bundle) => expected == Ok::<CfdTransactionsView, Error>(bundle.deep_view()),
        Err(e) => expected == Err::<CfdTransactionsView, Error>(e),
    }
}

/// The keys of a party in the commit descriptor.
pub open spec fn keys_of(party: PartyView) -> CommitKeys {
    CommitKeys {
        identity: party.identity_pk,
        revocation: party.punish.revocation_pk,
        publish: party.punish.publish_pk,
    }
}

/// The point to which a party encrypts its signature on the commit
/// transaction: the publish key of the other party. Who decrypts the signature
/// to publish the transaction gives away its own secret publish key.
pub open spec fn commit_encryption_key(sk: Seq<u8>, maker: PartyView, taker: PartyView) -> Result<
    PublicKey,
    Error,
> {
    match public_key_of(sk) {
        None => Err(Error::DegenerateKeys),
        Some(pk) => if pk == maker.identity_pk@ {
            Ok(taker.punish.publish_pk)
        } else if pk == taker.identity_pk@ {
            Ok(maker.punish.publish_pk)
        } else {
            Err(Error::UnknownIdentity)
        },
    }
}

/// Picks the key to which the signature on the commit transaction is
/// encrypted. Fails with `DegenerateKeys` where the secret key is malformed,
/// and with `UnknownIdentity` where it is the key of neither party.
pub fn counterparty_publish_key(identity_sk: &SecretKey, maker: &Party, taker: &Party) -> (key:
    Result<PublicKey, Error>)
    ensures
        key == commit_encryption_key(identity_sk@, maker.deep_view(), taker.deep_view()),
{
    match identity_sk.public_key() {
        None => Err(Error::DegenerateKeys),
        Some(pk) => {
            if pk.same(&maker.identity_pk) {
                Ok(taker.punish.publish_pk)
            } else if pk.same(&taker.identity_pk) {
                Ok(maker.punish.publish_pk)
            } else {
                Err(Error::UnknownIdentity)
            }
        },
    }
}

/// What the transactions that spend the commit output have in common.
pub struct Settlement {
    pub commit_outpoint: OutPointView,
    pub commit_amount: u64,
    pub script_code: Seq<u8>,
    pub maker_address: Seq<u8>,
    pub taker_address: Seq<u8>,
    pub oracle_pk: Seq<u8>,
    pub sk: Seq<u8>,
    pub aux: Seq<u8>,
}

/// The contract execution transaction of a payout, with the adaptor signature
/// of `sk` on it, encrypted to the signature point of the outcome.
pub open spec fn signed_cet_of(terms: Settlement, payout: PayoutView) -> Result<CetView, Error> {
    match cet_of(
        terms.commit_outpoint,
        terms.commit_amount,
        payout,
        terms.maker_address,
        terms.taker_address,
    ) {
        Err(e) => Err(e),
        Ok(tx) => match signature_point_of(
            terms.oracle_pk,
            payout.nonce_pk,
            payout.outcome_message,
        ) {
            Err(e) => Err(e),
            Ok(point) => match encryption_of(
                sighash_of(tx, 0, terms.script_code, terms.commit_amount),
                terms.sk,
                point,
                terms.aux,
            ) {
                Err(e) => Err(e),
                Ok(encsig) => Ok(
                    CetView {
                        tx,
                        encsig,
                        outcome_message: payout.outcome_message,
                        nonce_pk: payout.nonce_pk,
                    },
                ),
            },
        },
    }
}

/// The contract execution transactions of the first `count` payouts, in the
/// order of the payouts; the error of the first payout that fails.
pub open spec fn cets_of(terms: Settlement, payouts: Seq<PayoutView>, count: int) -> Result<
    Seq<CetView>,
    Error,
>
    decreases count,
{
    if count <= 0 {
        Ok(Seq::empty())
    } else {
        match cets_of(terms, payouts, count - 1) {
            Err(e) => Err(e),
            Ok(cets) => match signed_cet_of(terms, payouts[count - 1]) {
                Err(e) => Err(e),
                Ok(cet) => Ok(cets.push(cet)),
            },
        }
    }
}

/// The refund transaction, the contract execution transactions and our
/// signatures on them, joined with the lock and commit transactions into a
/// bundle.
pub open spec fn settlements_of(
    lock_tx: TransactionView,
    commit: (TransactionView, Seq<u8>),
    commit_descriptor: DescriptorView,
    maker: PartyView,
    taker: PartyView,
    oracle_pk: Seq<u8>,
    refund_timelock: u32,
    payouts: Seq<PayoutView>,
    sk: Seq<u8>,
    aux: Seq<u8>,
) -> Result<CfdTransactionsView, Error> {
    let commit_outpoint = OutPointView { txid: txid_of(commit.0), vout: 0 };
    let commit_amount = commit.0.output[0].value;
    match refund_transaction_of(commit_outpoint, commit_amount, refund_timelock, maker, taker) {
        Err(e) => Err(e),
        Ok(refund_tx) => match signature_of(
            sighash_of(refund_tx, 0, commit_descriptor.script_code, commit_amount),
            sk,
        ) {
            Err(e) => Err(e),
            Ok(refund_sig) => match cets_of(
                Settlement {
                    commit_outpoint,
                    commit_amount,
                    script_code: commit_descriptor.script_code,
                    maker_address: maker.address,
                    taker_address: taker.address,
                    oracle_pk,
                    sk,
                    aux,
                },
                payouts,
                payouts.len() as int,
            ) {
                Err(e) => Err(e),
                Ok(cets) => Ok(
                    CfdTransactionsView {
                        lock: lock_tx,
                        commit,
                        refund: (refund_tx, refund_sig),
                        cets,
                    },
                ),
            },
        },
    }
}

/// The commit transaction with our adaptor signature on it.
pub open spec fn signed_commit_of(
    lock_tx: TransactionView,
    lock_descriptor: DescriptorView,
    commit_descriptor: DescriptorView,
    maker: PartyView,
    taker: PartyView,
    sk: Seq<u8>,
    aux: Seq<u8>,
) -> Result<(TransactionView, Seq<u8>), Error> {
    match outpoint_paying_to(lock_tx, lock_descriptor.script_pubkey) {
        None => Err(Error::MissingOutput),
        Some((lock_outpoint, lock_amount)) => match commit_transaction_of(
            lock_outpoint,
            lock_amount,
            commit_descriptor.script_pubkey,
        ) {
            Err(e) => Err(e),
            Ok(commit_tx) => match commit_encryption_key(sk, maker, taker) {
                Err(e) => Err(e),
                Ok(encryption_key) => match encryption_of(
                    sighash_of(commit_tx, 0, lock_descriptor.script_code, lock_amount),
                    sk,
                    encryption_key@,
                    aux,
                ) {
                    Err(e) => Err(e),
                    Ok(encsig) => Ok((commit_tx, encsig)),
                },
            },
        },
    }
}

/// The bundle of a contract that is locked by `lock_tx`: the commit
/// transaction spends the first output of `lock_tx` that pays to the lock
/// descriptor of the two identity keys.
pub open spec fn build_of(
    lock_tx: TransactionView,
    maker: PartyView,
    taker: PartyView,
    oracle_pk: Seq<u8>,
    refund_timelock: u32,
    payouts: Seq<PayoutView>,
    sk: Seq<u8>,
    aux: Seq<u8>,
) -> Result<CfdTransactionsView, Error> {
    match lock_descriptor_of(maker.identity_pk, taker.identity_pk) {
        Err(e) => Err(e),
        Ok(lock_descriptor) => match commit_descriptor_of(keys_of(maker), keys_of(taker)) {
            Err(e) => Err(e),
            Ok(commit_descriptor) => match signed_commit_of(
                lock_tx,
                lock_descriptor,
                commit_descriptor,
                maker,
                taker,
                sk,
                aux,
            ) {
                Err(e) => Err(e),
                Ok(commit) => settlements_of(
                    lock_tx,
                    commit,
                    commit_descriptor,
                    maker,
                    taker,
                    oracle_pk,
                    refund_timelock,
                    payouts,
                    sk,
                    aux,
                ),
            },
        },
    }
}

/// A party of a new contract, as it stands in the transactions after the
/// lock transaction.
pub open spec fn party_of(params: PartyParamsView, punish: PunishParams) -> PartyView {
    PartyView {
        identity_pk: params.identity_pk,
        lock_amount: params.lock_amount,
        address: params.change_address,
        punish,
    }
}

/// The bundle of a new contract.
pub open spec fn create_of(
    maker: PartyParamsView,
    maker_punish: PunishParams,
    taker: PartyParamsView,
    taker_punish: PunishParams,
    oracle_pk: Seq<u8>,
    refund_timelock: u32,
    payouts: Seq<PayoutView>,
    sk: Seq<u8>,
    aux: Seq<u8>,
) -> Result<CfdTransactionsView, Error> {
    match lock_descriptor_of(maker.identity_pk, taker.identity_pk) {
        Err(e) => Err(e),
        Ok(lock_descriptor) => match lock_transaction_of(
            maker,
            taker,
            lock_descriptor.script_pubkey,
        ) {
            Err(e) => Err(e),
            Ok(lock_tx) => build_of(
                lock_tx,
                party_of(maker, maker_punish),
                party_of(taker, taker_punish),
                oracle_pk,
                refund_timelock,
                payouts,
                sk,
                aux,
            ),
        },
    }
}


/// A list of contract execution transactions that was built has one entry for
/// each payout, in the order of the payouts.
pub proof fn cets_follow_payouts(terms: Settlement, payouts: Seq<PayoutView>, count: int)
    requires
        0 <= count <= payouts.len(),
        cets_of(terms, payouts, count) is Ok,
    ensures
        cets_of(terms, payouts, count)->Ok_0.len() == count,
        forall|i: int|
            0 <= i < count ==> signed_cet_of(terms, #[trigger] payouts[i]) == Ok::<
                CetView,
                Error,
            >(cets_of(terms, payouts, count)->Ok_0[i]),
    decreases count,
{
    if count > 0 {
        cets_follow_payouts(terms, payouts, count - 1);
    }
}

/// Whether two bundles hold the same transactions, whatever their signatures.
pub open spec fn same_transactions(a: CfdTransactionsView, b: CfdTransactionsView) -> bool {
    &&& a.lock == b.lock
    &&& a.commit.0 == b.commit.0
    &&& a.refund.0 == b.refund.0
    &&& a.cets.len() == b.cets.len()
    &&& forall|i: int|
        0 <= i < a.cets.len() ==> (#[trigger] a.cets[i]).tx == b.cets[i].tx && a.cets[i].outcome_message
            == b.cets[i].outcome_message && a.cets[i].nonce_pk == b.cets[i].nonce_pk
}

/// Both parties hold the same transactions: two bundles that are built on one
/// lock transaction from the same parameters hold the same commit, refund and
/// contract execution transactions, whichever secret keys and randomness they
/// are signed with.
pub proof fn renewal_is_deterministic(
    lock_tx: TransactionView,
    maker: PartyView,
    taker: PartyView,
    oracle_pk: Seq<u8>,
    refund_timelock: u32,
    payouts: Seq<PayoutView>,
    first_sk: Seq<u8>,
    first_aux: Seq<u8>,
    second_sk: Seq<u8>,
    second_aux: Seq<u8>,
)
    ensures
        match (
            build_of(
                lock_tx,
                maker,
                taker,
                oracle_pk,
                refund_timelock,
                payouts,
                first_sk,
                first_aux,
            ),
            build_of(
                lock_tx,
                maker,
                taker,
                oracle_pk,
                refund_timelock,
                payouts,
                second_sk,
                second_aux,
            ),
        ) {
            (Ok(first), Ok(second)) => same_transactions(first, second),
            _ => true,
        },
{
    let first = build_of(
        lock_tx,
        maker,
        taker,
        oracle_pk,
        refund_timelock,
        payouts,
        first_sk,
        first_aux,
    );
    let second = build_of(
        lock_tx,
        maker,
        taker,
        oracle_pk,
        refund_timelock,
        payouts,
        second_sk,
        second_aux,
    );
    if first is Ok && second is Ok {
        let lock_descriptor = lock_descriptor_of(maker.identity_pk, taker.identity_pk)->Ok_0;
        let commit_descriptor = commit_descriptor_of(keys_of(maker), keys_of(taker))->Ok_0;
        let first_commit = signed_commit_of(
            lock_tx,
            lock_descriptor,
            commit_descriptor,
            maker,
            taker,
            first_sk,
            first_aux,
        )->Ok_0;
        let second_commit = signed_commit_of(
            lock_tx,
            lock_descriptor,
            commit_descriptor,
            maker,
            taker,
            second_sk,
            second_aux,
        )->Ok_0;
        assert(first_commit.0 == second_commit.0);
        let commit_outpoint = OutPointView { txid: txid_of(first_commit.0), vout: 0 };
        let commit_amount = first_commit.0.output[0].value;
        let first_terms = Settlement {
            commit_outpoint,
            commit_amount,
            script_code: commit_descriptor.script_code,
            maker_address: maker.address,
            taker_address: taker.address,
            oracle_pk,
            sk: first_sk,
            aux: first_aux,
        };
        let second_terms = Settlement {
            commit_outpoint,
            commit_amount,
            script_code: commit_descriptor.script_code,
            maker_address: maker.address,
            taker_address: taker.address,
            oracle_pk,
            sk: second_sk,
            aux: second_aux,
        };
        cets_follow_payouts(first_terms, payouts, payouts.len() as int);
        cets_follow_payouts(second_terms, payouts, payouts.len() as int);
        assert forall|i: int| 0 <= i < first->Ok_0.cets.len() implies (
        #[trigger] first->Ok_0.cets[i]).tx == second->Ok_0.cets[i].tx
            && first->Ok_0.cets[i].outcome_message == second->Ok_0.cets[i].outcome_message
            && first->Ok_0.cets[i].nonce_pk == second->Ok_0.cets[i].nonce_pk by {
            assert(signed_cet_of(first_terms, payouts[i]) is Ok);
            assert(signed_cet_of(second_terms, payouts[i]) is Ok);
        }
    }
}

/// Both parties hold the same transactions of a new contract: two bundles
/// that are built from the same parameters hold the same lock, commit, refund
/// and contract execution transactions, whichever secret keys and randomness
/// they are signed with.
pub proof fn creation_is_deterministic(
    maker: PartyParamsView,
    maker_punish: PunishParams,
    taker: PartyParamsView,
    taker_punish: PunishParams,
    oracle_pk: Seq<u8>,
    refund_timelock: u32,
    payouts: Seq<PayoutView>,
    first_sk: Seq<u8>,
    first_aux: Seq<u8>,
    second_sk: Seq<u8>,
    second_aux: Seq<u8>,
)
    ensures
        match (
            create_of(
                maker,
                maker_punish,
                taker,
                taker_punish,
                oracle_pk,
                refund_timelock,
                payouts,
                first_sk,
                first_aux,
            ),
            create_of(
                maker,
                maker_punish,
                taker,
                taker_punish,
                oracle_pk,
                refund_timelock,
                payouts,
                second_sk,
                second_aux,
            ),
        ) {
            (Ok(first), Ok(second)) => same_transactions(first, second),
            _ => true,
        },
{
    let lock_descriptor = lock_descriptor_of(maker.identity_pk, taker.identity_pk);
    if lock_descriptor is Ok {
        let lock_tx = lock_transaction_of(maker, taker, lock_descriptor->Ok_0.script_pubkey);
        if lock_tx is Ok {
            renewal_is_deterministic(
                lock_tx->Ok_0,
                party_of(maker, maker_punish),
                party_of(taker, taker_punish),
                oracle_pk,
                refund_timelock,
                payouts,
                first_sk,
                first_aux,
                second_sk,
                second_aux,
            );
        }
    }
}

/// Whether no two payouts are for the same outcome.
pub open spec fn distinct_outcomes(payouts: Seq<PayoutView>) -> bool {
    forall|i: int, j: int|
        0 <= i < j < payouts.len() ==> payouts[i].outcome_message != payouts[j].outcome_message
}

/// Every outcome is settled by one transaction, and no settlement pays more
/// than there is. A bundle that was built holds one contract execution
/// transaction for each payout, in the order of the payouts and with the
/// message and nonce key of its payout; where no two payouts are for the same
/// outcome, no two transactions are. And the outputs of each of these
/// transactions, as those of the refund transaction, hold no more than the
/// commit output less the fee of a settlement.
pub proof fn settlement_is_exhaustive(
    lock_tx: TransactionView,
    maker: PartyView,
    taker: PartyView,
    oracle_pk: Seq<u8>,
    refund_timelock: u32,
    payouts: Seq<PayoutView>,
    sk: Seq<u8>,
    aux: Seq<u8>,
)
    ensures
        build_of(lock_tx, maker, taker, oracle_pk, refund_timelock, payouts, sk, aux) matches Ok(
            bundle,
        ) ==> {
            &&& bundle.cets.len() == payouts.len()
            &&& forall|i: int|
                0 <= i < payouts.len() ==> (#[trigger] bundle.cets[i]).outcome_message
                    == payouts[i].outcome_message && bundle.cets[i].nonce_pk
                    == payouts[i].nonce_pk
            &&& distinct_outcomes(payouts) ==> forall|i: int, j: int|
                0 <= i < j < bundle.cets.len() ==> bundle.cets[i].outcome_message
                    != bundle.cets[j].outcome_message
            &&& forall|i: int|
                0 <= i < bundle.cets.len() ==> output_total((#[trigger] bundle.cets[i]).tx.output)
                    + SETTLEMENT_TX_FEE <= bundle.commit.0.output[0].value
            &&& output_total(bundle.refund.0.output) + SETTLEMENT_TX_FEE
                <= bundle.commit.0.output[0].value
        },
{
    let built = build_of(lock_tx, maker, taker, oracle_pk, refund_timelock, payouts, sk, aux);
    if built is Ok {
        let bundle = built->Ok_0;
        let commit_descriptor = commit_descriptor_of(keys_of(maker), keys_of(taker))->Ok_0;
        let terms = Settlement {
            commit_outpoint: OutPointView { txid: txid_of(bundle.commit.0), vout: 0 },
            commit_amount: bundle.commit.0.output[0].value,
            script_code: commit_descriptor.script_code,
            maker_address: maker.address,
            taker_address: taker.address,
            oracle_pk,
            sk,
            aux,
        };
        cets_follow_payouts(terms, payouts, payouts.len() as int);
        assert forall|i: int| 0 <= i < payouts.len() implies (
        #[trigger] bundle.cets[i]).outcome_message == payouts[i].outcome_message
            && bundle.cets[i].nonce_pk == payouts[i].nonce_pk && output_total(
            bundle.cets[i].tx.output,
        ) + SETTLEMENT_TX_FEE <= bundle.commit.0.output[0].value by {
            assert(signed_cet_of(terms, payouts[i]) is Ok);
        }
    }
}

/// A payout that splits exactly what is locked leaves exactly the fee: where
/// the two amounts of a payout hold together what the commit output holds and
/// the fee of the commit transaction, the outputs of the payout's transaction
/// and the fee of a settlement fit into the commit output.
pub proof fn payout_of_the_locked_amount_fits(
    payout: PayoutView,
    commit_amount: u64,
    maker_address: Seq<u8>,
    taker_address: Seq<u8>,
)
    requires
        payout.maker_amount + payout.taker_amount == commit_amount + COMMIT_TX_FEE,
    ensures
        after_fee(
            payout.maker_amount,
            payout.taker_amount,
            SETTLEMENT_COST,
            dust_value_of(maker_address),
            dust_value_of(taker_address),
        ) matches Ok(amounts) ==> output_total(
            paid_output(amounts.0, maker_address) + paid_output(amounts.1, taker_address),
        ) + SETTLEMENT_TX_FEE <= commit_amount,
{
    let paid = after_fee(
        payout.maker_amount,
        payout.taker_amount,
        SETTLEMENT_COST,
        dust_value_of(maker_address),
        dust_value_of(taker_address),
    );
    if paid is Ok {
        let amounts = paid->Ok_0;
        fee_is_paid(
            payout.maker_amount,
            payout.taker_amount,
            SETTLEMENT_COST,
            dust_value_of(maker_address),
            dust_value_of(taker_address),
        );
        let first = paid_output(amounts.0, maker_address);
        let second = paid_output(amounts.1, taker_address);
        output_total_of_joined(first, second);
        assert(output_total(first) <= amounts.0) by {
            if first.len() == 1 {
                assert(first.drop_last().len() == 0);
                assert(output_total(first.drop_last()) == 0);
                assert(first.last().value == amounts.0);
            }
        }
        assert(output_total(second) <= amounts.1) by {
            if second.len() == 1 {
                assert(second.drop_last().len() == 0);
                assert(output_total(second.drop_last()) == 0);
                assert(second.last().value == amounts.1);
            }
        }
    }
}

/// Every signature of a bundle is valid. In a bundle that was built with the
/// secret key `sk`, under the public key of `sk`: the adaptor signature on the
/// commit transaction is valid for the spend of the lock output, encrypted to
/// the publish key of the other party; the signature on the refund
/// transaction is valid for the spend of the commit output; and the adaptor
/// signature on each contract execution transaction is valid for the spend of
/// the commit output, encrypted to the signature point of its outcome.
pub proof fn bundle_is_signed(
    lock_tx: TransactionView,
    maker: PartyView,
    taker: PartyView,
    oracle_pk: Seq<u8>,
    refund_timelock: u32,
    payouts: Seq<PayoutView>,
    sk: Seq<u8>,
    aux: Seq<u8>,
)
    ensures
        build_of(lock_tx, maker, taker, oracle_pk, refund_timelock, payouts, sk, aux) matches Ok(
            bundle,
        ) ==> {
            let lock_descriptor = lock_descriptor_of(maker.identity_pk, taker.identity_pk)->Ok_0;
            let commit_descriptor = commit_descriptor_of(keys_of(maker), keys_of(taker))->Ok_0;
            let lock_amount = outpoint_paying_to(lock_tx, lock_descriptor.script_pubkey)->Some_0.1;
            let commit_amount = bundle.commit.0.output[0].value;
            let pk = public_key_of(sk)->Some_0;
            &&& public_key_of(sk) is Some
            &&& commit_encryption_key(sk, maker, taker) is Ok
            &&& adaptor_valid(
                bundle.commit.1,
                sighash_of(bundle.commit.0, 0, lock_descriptor.script_code, lock_amount),
                pk,
                commit_encryption_key(sk, maker, taker)->Ok_0@,
            )
            &&& ecdsa_valid(
                sighash_of(bundle.refund.0, 0, commit_descriptor.script_code, commit_amount),
                bundle.refund.1,
                pk,
            )
            &&& forall|i: int|
                0 <= i < bundle.cets.len() ==> signature_point_of(
                    oracle_pk,
                    (#[trigger] bundle.cets[i]).nonce_pk,
                    bundle.cets[i].outcome_message,
                ) is Ok && adaptor_valid(
                    bundle.cets[i].encsig,
                    sighash_of(bundle.cets[i].tx, 0, commit_descriptor.script_code, commit_amount),
                    pk,
                    signature_point_of(
                        oracle_pk,
                        bundle.cets[i].nonce_pk,
                        bundle.cets[i].outcome_message,
                    )->Ok_0,
                )
        },
{
    let built = build_of(lock_tx, maker, taker, oracle_pk, refund_timelock, payouts, sk, aux);
    if built is Ok {
        let bundle = built->Ok_0;
        let commit_descriptor = commit_descriptor_of(keys_of(maker), keys_of(taker))->Ok_0;
        let terms = Settlement {
            commit_outpoint: OutPointView { txid: txid_of(bundle.commit.0), vout: 0 },
            commit_amount: bundle.commit.0.output[0].value,
            script_code: commit_descriptor.script_code,
            maker_address: maker.address,
            taker_address: taker.address,
            oracle_pk,
            sk,
            aux,
        };
        cets_follow_payouts(terms, payouts, payouts.len() as int);
        assert forall|i: int| 0 <= i < bundle.cets.len() implies signature_point_of(
            oracle_pk,
            (#[trigger] bundle.cets[i]).nonce_pk,
            bundle.cets[i].outcome_message,
        ) is Ok && adaptor_valid(
            bundle.cets[i].encsig,
            sighash_of(
                bundle.cets[i].tx,
                0,
                commit_descriptor.script_code,
                bundle.commit.0.output[0].value,
            ),
            public_key_of(sk)->Some_0,
            signature_point_of(
                oracle_pk,
                bundle.cets[i].nonce_pk,
                bundle.cets[i].outcome_message,
            )->Ok_0,
        ) by {
            assert(signed_cet_of(terms, payouts[i]) is Ok);
        }
    }
}

/// Builds and signs the contract execution transaction of a payout.
fn signed_cet(
    commit_outpoint: OutPoint,
    commit_amount: u64,
    script_code: &Vec<u8>,
    maker_address: &Address,
    taker_address: &Address,
    oracle_pk: &XOnlyPublicKey,
    payout: &Payout,
    identity_sk: &SecretKey,
    aux: &[u8; 32],
) -> (cet: Result<Cet, Error>)
    ensures
        match cet {
            Ok(c) => signed_cet_of(
                Settlement {
                    commit_outpoint: commit_outpoint.deep_view(),
                    commit_amount,
                    script_code: script_code@,
                    maker_address: maker_address.deep_view(),
                    taker_address: taker_address.deep_view(),
                    oracle_pk: oracle_pk@,
                    sk: identity_sk@,
                    aux: aux@,
                },
                payout.deep_view(),
            ) == Ok::<CetView, Error>(c.deep_view()),
            Err(e) => signed_cet_of(
                Settlement {
                    commit_outpoint: commit_outpoint.deep_view(),
                    commit_amount,
                    script_code: script_code@,
                    maker_address: maker_address.deep_view(),
                    taker_address: taker_address.deep_view(),
                    oracle_pk: oracle_pk@,
                    sk: identity_sk@,
                    aux: aux@,
                },
                payout.deep_view(),
            ) == Err::<CetView, Error>(e),
        },
{
    let tx = match contract_execution_transaction(
        commit_outpoint,
        commit_amount,
        payout,
        maker_address,
        taker_address,
    ) {
        Ok(tx) => tx,
        Err(e) => {
            return Err(e);
        },
    };
    let point = match compute_signature_point(
        oracle_pk,
        &payout.nonce_pk,
        payout.outcome_message.as_slice(),
    ) {
        Ok(point) => point,
        Err(e) => {
            return Err(e);
        },
    };
    assert(tx.input@.len() == 1) by {
        assert(tx.deep_view().input.len() == 1);
    }
    let sighash = signature_hash(&tx, 0, script_code, commit_amount);
    match encrypt_with_aux(&sighash, identity_sk, &point, aux) {
        Err(e) => Err(e),
        Ok(encsig) => Ok(
            Cet {
                tx,
                encsig,
                outcome_message: copy_bytes(payout.outcome_message.as_slice()),
                nonce_pk: payout.nonce_pk,
            },
        ),
    }
}

/// Once a payout fails, the list fails with the same error however many
/// payouts follow.
proof fn lemma_first_failure(terms: Settlement, payouts: Seq<PayoutView>, count: int, more: int)
    requires
        0 <= count <= more,
        cets_of(terms, payouts, count) is Err,
    ensures
        cets_of(terms, payouts, more) == cets_of(terms, payouts, count),
    decreases more - count,
{
    if count < more {
        lemma_first_failure(terms, payouts, count, more - 1);
    }
}

/// Builds the refund transaction and the contract execution transactions on
/// top of a signed commit transaction, and joins everything into a bundle.
#[verifier::loop_isolation(false)]
fn settlements(
    lock_tx: Transaction,
    commit: (Transaction, AdaptorSignature),
    commit_descriptor: &Descriptor,
    maker: &Party,
    taker: &Party,
    oracle_pk: &XOnlyPublicKey,
    refund_timelock: u32,
    payouts: &Vec<Payout>,
    identity_sk: &SecretKey,
    aux: &[u8; 32],
) -> (bundle: Result<CfdTransactions, Error>)
    requires
        commit.0.input@.len() == 1,
        commit.0.output@.len() == 1,
    ensures
        bundle_matches(
            bundle,
            settlements_of(
                lock_tx.deep_view(),
                (commit.0.deep_view(), commit.1@),
                commit_descriptor.deep_view(),
                maker.deep_view(),
                taker.deep_view(),
                oracle_pk@,
                refund_timelock,
                payouts.deep_view(),
                identity_sk@,
                aux@,
            ),
        ),
{
    let commit_outpoint = OutPoint { txid: transaction_id(&commit.0), vout: 0 };
    let commit_amount = commit.0.output[0].value;
    assert(commit.0.deep_view().output[0].value == commit_amount);
    let refund_tx = match refund_transaction(
        commit_outpoint,
        commit_amount,
        refund_timelock,
        maker,
        taker,
    ) {
        Ok(tx) => tx,
        Err(e) => {
            return Err(e);
        },
    };
    assert(refund_tx.input@.len() == 1) by {
        assert(refund_tx.deep_view().input.len() == 1);
    }
    let refund_sighash = signature_hash(
        &refund_tx,
        0,
        commit_descriptor.script_code(),
        commit_amount,
    );
    let refund_sig = match sign(&refund_sighash, identity_sk) {
        Ok(signature) => signature,
        Err(e) => {
            return Err(e);
        },
    };
    let ghost terms = Settlement {
        commit_outpoint: commit_outpoint.deep_view(),
        commit_amount,
        script_code: commit_descriptor.deep_view().script_code,
        maker_address: maker.address.deep_view(),
        taker_address: taker.address.deep_view(),
        oracle_pk: oracle_pk@,
        sk: identity_sk@,
        aux: aux@,
    };
    let ghost views = payouts.deep_view();
    let mut cets: Vec<Cet> = Vec::new();
    assert(cets.deep_view() =~= Seq::empty());
    let mut i: usize = 0;
    while i < payouts.len()
        invariant
            i <= payouts@.len(),
            views == payouts.deep_view(),
            cets_of(terms, views, i as int) == Ok::<Seq<CetView>, Error>(cets.deep_view()),
            terms == (Settlement {
                commit_outpoint: commit_outpoint.deep_view(),
                commit_amount,
                script_code: commit_descriptor.deep_view().script_code,
                maker_address: maker.address.deep_view(),
                taker_address: taker.address.deep_view(),
                oracle_pk: oracle_pk@,
                sk: identity_sk@,
                aux: aux@,
            }),
        decreases payouts@.len() - i,
    {
        assert(views[i as int] == payouts@[i as int].deep_view());
        let ghost before = cets.deep_view();
        match signed_cet(
            commit_outpoint,
            commit_amount,
            commit_descriptor.script_code(),
            &maker.address,
            &taker.address,
            oracle_pk,
            &payouts[i],
            identity_sk,
            aux,
        ) {
            Ok(cet) => {
                cets.push(cet);
                assert(cets.deep_view() =~= before.push(cet.deep_view()));
            },
            Err(e) => {
                proof {
                    assert(cets_of(terms, views, i + 1) == Err::<Seq<CetView>, Error>(e));
                    lemma_first_failure(terms, views, i + 1, views.len() as int);
                }
                return Err(e);
            },
        }
        i += 1;
    }
    Ok(CfdTransactions { lock: lock_tx, commit, refund: (refund_tx, refund_sig), cets })
}

/// The keys of a party in the commit descriptor.
fn commit_keys_of(party: &Party) -> (keys: CommitKeys)
    ensures
        keys == keys_of(party.deep_view()),
{
    CommitKeys {
        identity: party.identity_pk,
        revocation: party.punish.revocation_pk,
        publish: party.punish.publish_pk,
    }
}

/// Builds the commit transaction on top of a lock transaction and signs it.
fn signed_commit(
    lock_tx: &Transaction,
    lock_descriptor: &Descriptor,
    commit_descriptor: &Descriptor,
    maker: &Party,
    taker: &Party,
    identity_sk: &SecretKey,
    aux: &[u8; 32],
) -> (commit: Result<(Transaction, AdaptorSignature), Error>)
    ensures
        match commit {
            Ok(c) => signed_commit_of(
                lock_tx.deep_view(),
                lock_descriptor.deep_view(),
                commit_descriptor.deep_view(),
                maker.deep_view(),
                taker.deep_view(),
                identity_sk@,
                aux@,
            ) == Ok::<(TransactionView, Seq<u8>), Error>((c.0.deep_view(), c.1@))
                && c.0.input@.len() == 1 && c.0.output@.len() == 1,
            Err(e) => signed_commit_of(
                lock_tx.deep_view(),
                lock_descriptor.deep_view(),
                commit_descriptor.deep_view(),
                maker.deep_view(),
                taker.deep_view(),
                identity_sk@,
                aux@,
            ) == Err::<(TransactionView, Seq<u8>), Error>(e),
        },
{
    let (lock_outpoint, lock_amount) = match lock_tx.outpoint(lock_descriptor.script_pubkey()) {
        Some(found) => found,
        None => {
            return Err(Error::MissingOutput);
        },
    };
    let commit_tx = match commit_transaction(
        lock_outpoint,
        lock_amount,
        commit_descriptor.script_pubkey(),
    ) {
        Ok(tx) => tx,
        Err(e) => {
            return Err(e);
        },
    };
    assert(commit_tx.input@.len() == 1 && commit_tx.output@.len() == 1) by {
        assert(commit_tx.deep_view().input.len() == 1);
        assert(commit_tx.deep_view().output.len() == 1);
    }
    let encryption_key = match counterparty_publish_key(identity_sk, maker, taker) {
        Ok(key) => key,
        Err(e) => {
            return Err(e);
        },
    };
    let sighash = signature_hash(&commit_tx, 0, lock_descriptor.script_code(), lock_amount);
    match encrypt_with_aux(&sighash, identity_sk, &encryption_key, aux) {
        Err(e) => Err(e),
        Ok(encsig) => Ok((commit_tx, encsig)),
    }
}

/// Builds the bundle of a contract on top of its lock transaction, with the
/// given auxiliary randomness in the nonces of the adaptor signatures.
pub fn build_cfds(
    lock_tx: Transaction,
    maker: &Party,
    taker: &Party,
    oracle_pk: &XOnlyPublicKey,
    refund_timelock: u32,
    payouts: &Vec<Payout>,
    identity_sk: &SecretKey,
    aux: &[u8; 32],
) -> (bundle: Result<CfdTransactions, Error>)
    ensures
        bundle_matches(
            bundle,
            build_of(
                lock_tx.deep_view(),
                maker.deep_view(),
                taker.deep_view(),
                oracle_pk@,
                refund_timelock,
                payouts.deep_view(),
                identity_sk@,
                aux@,
            ),
        ),
{
    let lock_descriptor = match lock_descriptor(maker.identity_pk, taker.identity_pk) {
        Ok(descriptor) => descriptor,
        Err(e) => {
            return Err(e);
        },
    };
    let commit_descriptor = match commit_descriptor(commit_keys_of(maker), commit_keys_of(taker)) {
        Ok(descriptor) => descriptor,
        Err(e) => {
            return Err(e);
        },
    };
    let commit = match signed_commit(
        &lock_tx,
        &lock_descriptor,
        &commit_descriptor,
        maker,
        taker,
        identity_sk,
        aux,
    ) {
        Ok(commit) => commit,
        Err(e) => {
            return Err(e);
        },
    };
    settlements(
        lock_tx,
        commit,
        &commit_descriptor,
        maker,
        taker,
        oracle_pk,
        refund_timelock,
        payouts,
        identity_sk,
        aux,
    )
}

/// A party of a new contract, as it stands in the transactions after the lock
/// transaction.
fn to_party(params: &PartyParams, punish: PunishParams) -> (party: Party)
    ensures
        party.deep_view() == party_of(params.deep_view(), punish),
{
    Party {
        identity_pk: params.identity_pk,
        lock_amount: params.lock_amount,
        address: params.change_address.duplicate(),
        punish,
    }
}

/// Builds the bundle of a new contract with the given auxiliary randomness in
/// the nonces of the adaptor signatures.
pub fn create_cfd_transactions_with(
    maker: (PartyParams, PunishParams),
    taker: (PartyParams, PunishParams),
    oracle_params: OracleParams,
    refund_timelock: u32,
    payouts: Vec<Payout>,
    identity_sk: &SecretKey,
    aux: &[u8; 32],
) -> (bundle: Result<CfdTransactions, Error>)
    ensures
        bundle_matches(
            bundle,
            create_of(
                maker.0.deep_view(),
                maker.1,
                taker.0.deep_view(),
                taker.1,
                oracle_params.oracle_pk@,
                refund_timelock,
                payouts.deep_view(),
                identity_sk@,
                aux@,
            ),
        ),
{
    let lock_descriptor = match lock_descriptor(maker.0.identity_pk, taker.0.identity_pk) {
        Ok(descriptor) => descriptor,
        Err(e) => {
            return Err(e);
        },
    };
    let lock_tx = match lock_transaction(&maker.0, &taker.0, lock_descriptor.script_pubkey()) {
        Ok(tx) => tx,
        Err(e) => {
            return Err(e);
        },
    };
    build_cfds(
        lock_tx,
        &to_party(&maker.0, maker.1),
        &to_party(&taker.0, taker.1),
        &oracle_params.oracle_pk,
        refund_timelock,
        &payouts,
        identity_sk,
        aux,
    )
}

/// Builds the transactions of a new contract and signs them with
/// `identity_sk`, the secret key of the maker or of the taker.
///
/// The lock transaction spends the funding inputs of both parties into the
/// lock output and their change. The commit transaction spends the lock
/// output; our adaptor signature on it is encrypted to the publish key of the
/// other party. The refund transaction and one contract execution transaction
/// for each payout spend the commit output; our adaptor signature on a
/// contract execution transaction is encrypted to the signature point of its
/// outcome.
///
/// The adaptor signatures are made with fresh randomness: the bundle is the
/// one that [`create_cfd_transactions_with`] builds for some 32 bytes.
pub fn create_cfd_transactions(
    maker: (PartyParams, PunishParams),
    taker: (PartyParams, PunishParams),
    oracle_params: OracleParams,
    refund_timelock: u32,
    payouts: Vec<Payout>,
    identity_sk: &SecretKey,
) -> (bundle: Result<CfdTransactions, Error>)
    ensures
        exists|aux: Seq<u8>|
            aux.len() == 32 && bundle_matches(
                bundle,
                #[trigger] create_of(
                    maker.0.deep_view(),
                    maker.1,
                    taker.0.deep_view(),
                    taker.1,
                    oracle_params.oracle_pk@,
                    refund_timelock,
                    payouts.deep_view(),
                    identity_sk@,
                    aux,
                ),
            ),
{
    let aux = fresh_randomness();
    let ghost expected = create_of(
        maker.0.deep_view(),
        maker.1,
        taker.0.deep_view(),
        taker.1,
        oracle_params.oracle_pk@,
        refund_timelock,
        payouts.deep_view(),
        identity_sk@,
        aux@,
    );
    let bundle = create_cfd_transactions_with(
        maker,
        taker,
        oracle_params,
        refund_timelock,
        payouts,
        identity_sk,
        &aux,
    );
    assert(aux@.len() == 32 && bundle_matches(bundle, expected));
    bundle
}

/// Builds the bundle of a renewed contract with the given auxiliary
/// randomness in the nonces of the adaptor signatures.
pub fn renew_cfd_transactions_with(
    lock_tx: Transaction,
    maker: Party,
    taker: Party,
    oracle_params: OracleParams,
    refund_timelock: u32,
    payouts: Vec<Payout>,
    identity_sk: &SecretKey,
    aux: &[u8; 32],
) -> (bundle: Result<CfdTransactions, Error>)
    ensures
        bundle_matches(
            bundle,
            build_of(
                lock_tx.deep_view(),
                maker.deep_view(),
                taker.deep_view(),
                oracle_params.oracle_pk@,
                refund_timelock,
                payouts.deep_view(),
                identity_sk@,
                aux@,
            ),
        ),
{
    build_cfds(
        lock_tx,
        &maker,
        &taker,
        &oracle_params.oracle_pk,
        refund_timelock,
        &payouts,
        identity_sk,
        aux,
    )
}

/// Builds the transactions of the next version of a contract on top of the
/// lock transaction that is there already, with new revocation and publish
/// keys for both parties. The contract is not funded again.
///
/// The new bundle supersedes the old one. The parties hand each other the
/// secret revocation keys of the old version; this function does not see them.
///
/// The adaptor signatures are made with fresh randomness: the bundle is the
/// one that [`renew_cfd_transactions_with`] builds for some 32 bytes.
pub fn renew_cfd_transactions(
    lock_tx: Transaction,
    maker: Party,
    taker: Party,
    oracle_params: OracleParams,
    refund_timelock: u32,
    payouts: Vec<Payout>,
    identity_sk: &SecretKey,
) -> (bundle: Result<CfdTransactions, Error>)
    ensures
        exists|aux: Seq<u8>|
            aux.len() == 32 && bundle_matches(
                bundle,
                #[trigger] build_of(
                    lock_tx.deep_view(),
                    maker.deep_view(),
                    taker.deep_view(),
                    oracle_params.oracle_pk@,
                    refund_timelock,
                    payouts.deep_view(),
                    identity_sk@,
                    aux,
                ),
            ),
{
    let aux = fresh_randomness();
    let ghost expected = build_of(
        lock_tx.deep_view(),
        maker.deep_view(),
        taker.deep_view(),
        oracle_params.oracle_pk@,
        refund_timelock,
        payouts.deep_view(),
        identity_sk@,
        aux@,
    );
    let bundle = renew_cfd_transactions_with(
        lock_tx,
        maker,
        taker,
        oracle_params,
        refund_timelock,
        payouts,
        identity_sk,
        &aux,
    );
    assert(aux@.len() == 32 && bundle_matches(bundle, expected));
    bundle
}

} // verus!
