use cfd_protocol::crypto::adaptor::{
    decrypt, decrypt_verified, encrypt, encrypt_with_aux, recover, sign, verify, verify_adaptor,
};
use cfd_protocol::chain::descriptor::{commit_descriptor, lock_descriptor, CommitKeys, Descriptor};
use cfd_protocol::error::Error;
use cfd_protocol::chain::fee::{check_fee, check_tx_fee};
use cfd_protocol::chain::finalize::{
    finalize_spend_transaction, finalize_verified_spend, spending_tx_sighash,
};
use cfd_protocol::contract::graph::{CET_TIMELOCK, SEQUENCE_FINAL};
use cfd_protocol::crypto::keys::{PublicKey, SecretKey, XOnlyPublicKey};
use cfd_protocol::crypto::oracle::{attest, compute_signature_point, decompose, x_only_public_key};
use cfd_protocol::contract::params::{
    Address, FundingInput, OracleParams, Party, PartyParams, Payout, PunishParams,
};
use cfd_protocol::contract::payout::{
    with_updated_fee, COMMIT_TX_FEE, PUNISH_TX_FEE, SETTLEMENT_COST, SETTLEMENT_TX_FEE,
};
use cfd_protocol::contract::protocol::{
    create_cfd_transactions, create_cfd_transactions_with, renew_cfd_transactions,
    CfdTransactions,
};
use cfd_protocol::contract::punish::punish_transaction;
use cfd_protocol::chain::transaction::{OutPoint, Transaction, TxIn, TxOut};
use cfd_protocol::contract::version::ContractVersion;

const ONE_BTC: u64 = 100_000_000;

fn secret(seed: u8) -> SecretKey {
    SecretKey { bytes: [seed; 32] }
}

fn public(seed: u8) -> PublicKey {
    secret(seed).public_key().unwrap()
}

fn address(seed: u8) -> Address {
    let mut script_pubkey = vec![0x00, 0x14];
    script_pubkey.extend_from_slice(&[seed; 20]);
    Address { script_pubkey }
}

fn party_params(seed: u8, lock_amount: u64) -> PartyParams {
    PartyParams {
        identity_pk: public(seed),
        funding_inputs: vec![
            FundingInput { outpoint: OutPoint { txid: [seed; 32], vout: 0 }, amount: 60_000_000 },
            FundingInput { outpoint: OutPoint { txid: [seed; 32], vout: 1 }, amount: 60_000_000 },
        ],
        change_address: address(seed),
        change_amount: 120_000_000 - lock_amount - 1_000,
        lock_amount,
    }
}

struct Setup {
    maker: PartyParams,
    taker: PartyParams,
    maker_punish: PunishParams,
    taker_punish: PunishParams,
    oracle_sk: SecretKey,
    nonce_sk: SecretKey,
    oracle_params: OracleParams,
    payouts: Vec<Payout>,
}

const MAKER: u8 = 1;
const TAKER: u8 = 2;
const MAKER_REVOCATION: u8 = 3;
const MAKER_PUBLISH: u8 = 4;
const TAKER_REVOCATION: u8 = 5;
const TAKER_PUBLISH: u8 = 6;

fn setup() -> Setup {
    let oracle_sk = secret(7);
    let nonce_sk = secret(8);
    let nonce_pk = x_only_public_key(&nonce_sk).unwrap();
    let oracle_pk = x_only_public_key(&oracle_sk).unwrap();
    Setup {
        maker: party_params(MAKER, ONE_BTC),
        taker: party_params(TAKER, ONE_BTC),
        maker_punish: PunishParams {
            revocation_pk: public(MAKER_REVOCATION),
            publish_pk: public(MAKER_PUBLISH),
        },
        taker_punish: PunishParams {
            revocation_pk: public(TAKER_REVOCATION),
            publish_pk: public(TAKER_PUBLISH),
        },
        oracle_sk,
        nonce_sk,
        oracle_params: OracleParams { oracle_pk, nonce_pk },
        payouts: vec![
            Payout::new(b"win".to_vec(), nonce_pk, 150_000_000, 50_000_000),
            Payout::new(b"lose".to_vec(), nonce_pk, 0, 200_000_000),
        ],
    }
}

fn create(setup: &Setup, identity_sk: SecretKey) -> Result<CfdTransactions, Error> {
    create_cfd_transactions(
        (setup.maker.clone(), setup.maker_punish),
        (setup.taker.clone(), setup.taker_punish),
        setup.oracle_params,
        0,
        setup.payouts.clone(),
        &identity_sk,
    )
}

fn commit_descriptor_of(setup: &Setup) -> Descriptor {
    commit_descriptor(
        CommitKeys {
            identity: setup.maker.identity_pk,
            revocation: setup.maker_punish.revocation_pk,
            publish: setup.maker_punish.publish_pk,
        },
        CommitKeys {
            identity: setup.taker.identity_pk,
            revocation: setup.taker_punish.revocation_pk,
            publish: setup.taker_punish.publish_pk,
        },
    )
    .unwrap()
}

/// The commit transaction as the taker publishes it: with the taker's own
/// signature and the maker's, decrypted with the taker's secret publish key.
fn published_by_taker(
    maker_txs: &CfdTransactions,
    lock_descriptor: &Descriptor,
    lock_amount: u64,
    maker_pk: PublicKey,
    taker_publish_sk: &SecretKey,
) -> Transaction {
    let sighash = spending_tx_sighash(&maker_txs.commit.0, lock_descriptor, lock_amount).unwrap();
    let taker_sig = sign(&sighash, &secret(TAKER)).unwrap();
    let maker_sig = decrypt(&maker_txs.commit.1, taker_publish_sk).unwrap();
    finalize_spend_transaction(
        maker_txs.commit.0.clone(),
        lock_descriptor,
        (maker_pk, maker_sig),
        (public(TAKER), taker_sig),
    )
    .unwrap()
}

#[test]
fn end_to_end_scenario() {
    let setup = setup();
    let maker_txs = create(&setup, secret(MAKER)).unwrap();
    let taker_txs = create(&setup, secret(TAKER)).unwrap();
    let lock_descriptor = lock_descriptor(public(MAKER), public(TAKER)).unwrap();
    let commit_descriptor = commit_descriptor_of(&setup);

    // lock: the funding inputs of the maker, then those of the taker; the lock
    // output, then the change of each.
    assert_eq!(maker_txs.lock.input.len(), 4);
    assert_eq!(maker_txs.lock.input[0].previous_output, OutPoint { txid: [MAKER; 32], vout: 0 });
    assert_eq!(maker_txs.lock.input[2].previous_output, OutPoint { txid: [TAKER; 32], vout: 0 });
    assert_eq!(
        maker_txs.lock.output,
        vec![
            TxOut { value: 2 * ONE_BTC, script_pubkey: lock_descriptor.script_pubkey().clone() },
            TxOut { value: 19_999_000, script_pubkey: address(MAKER).script_pubkey },
            TxOut { value: 19_999_000, script_pubkey: address(TAKER).script_pubkey },
        ]
    );

    // commit: the lock amount less the fee
    let (lock_outpoint, lock_amount) =
        maker_txs.lock.outpoint(lock_descriptor.script_pubkey()).unwrap();
    assert_eq!(lock_outpoint.vout, 0);
    assert_eq!(lock_amount, 2 * ONE_BTC);
    let commit_tx = &maker_txs.commit.0;
    assert_eq!(
        commit_tx.input,
        vec![TxIn { previous_output: lock_outpoint, sequence: SEQUENCE_FINAL, witness: vec![] }]
    );
    assert_eq!(
        commit_tx.output,
        vec![TxOut {
            value: 2 * ONE_BTC - COMMIT_TX_FEE,
            script_pubkey: commit_descriptor.script_pubkey().clone()
        }]
    );
    assert_eq!(COMMIT_TX_FEE, 150);
    let commit_amount = commit_tx.output[0].value;
    let (commit_outpoint, _) = commit_tx.outpoint(commit_descriptor.script_pubkey()).unwrap();

    // refund: one bitcoin each, less half of the cost of settling
    assert_eq!(SETTLEMENT_COST, COMMIT_TX_FEE + SETTLEMENT_TX_FEE);
    let refund_tx = &maker_txs.refund.0;
    assert_eq!(
        refund_tx.input,
        vec![TxIn { previous_output: commit_outpoint, sequence: 0, witness: vec![] }]
    );
    assert_eq!(
        refund_tx.output,
        vec![
            TxOut { value: ONE_BTC - 179, script_pubkey: address(MAKER).script_pubkey },
            TxOut { value: ONE_BTC - 179, script_pubkey: address(TAKER).script_pubkey },
        ]
    );

    // "win": 1.5 to the maker, 0.5 to the taker
    assert_eq!(maker_txs.cets.len(), 2);
    let win = &maker_txs.cets[0];
    assert_eq!(win.outcome_message, b"win".to_vec());
    assert_eq!(
        win.tx.input,
        vec![TxIn { previous_output: commit_outpoint, sequence: CET_TIMELOCK, witness: vec![] }]
    );
    assert_eq!(
        win.tx.output,
        vec![
            TxOut { value: 150_000_000 - 179, script_pubkey: address(MAKER).script_pubkey },
            TxOut { value: 50_000_000 - 179, script_pubkey: address(TAKER).script_pubkey },
        ]
    );

    // "lose": everything to the taker, who pays the whole cost
    let lose = &maker_txs.cets[1];
    assert_eq!(lose.outcome_message, b"lose".to_vec());
    assert_eq!(
        lose.tx.output,
        vec![TxOut { value: 200_000_000 - 358, script_pubkey: address(TAKER).script_pubkey }]
    );

    // both parties hold the same transactions
    assert_eq!(maker_txs.lock, taker_txs.lock);
    assert_eq!(maker_txs.commit.0, taker_txs.commit.0);
    assert_eq!(maker_txs.refund.0, taker_txs.refund.0);
    assert_eq!(maker_txs.cets[0].tx, taker_txs.cets[0].tx);
    assert_eq!(maker_txs.cets[1].tx, taker_txs.cets[1].tx);
    assert_ne!(maker_txs.refund.1, taker_txs.refund.1);

    // the attestation to "win" opens the signatures on the "win" transaction
    let (_, win_scalar) = decompose(&attest(&setup.oracle_sk, &setup.nonce_sk, b"win").unwrap());
    let (_, lose_scalar) = decompose(&attest(&setup.oracle_sk, &setup.nonce_sk, b"lose").unwrap());
    let win_sighash = spending_tx_sighash(&win.tx, &commit_descriptor, commit_amount).unwrap();
    let taker_win_encsig = taker_txs.cets[0].encsig;
    let opened = decrypt(&taker_win_encsig, &win_scalar).unwrap();
    assert!(verify(&opened, &win_sighash, &public(TAKER)));
    assert_eq!(
        decrypt_verified(&taker_win_encsig, &win_scalar, &win_sighash, &public(TAKER)),
        Ok(opened)
    );

    // the attestation to "lose" does not: what it decrypts is no valid signature
    let garbage = decrypt(&taker_win_encsig, &lose_scalar).unwrap();
    assert!(!verify(&garbage, &win_sighash, &public(TAKER)));
    assert_eq!(
        decrypt_verified(&taker_win_encsig, &lose_scalar, &win_sighash, &public(TAKER)),
        Err(Error::ScriptSatisfaction)
    );
    for (maker_cet, taker_cet) in maker_txs.cets.iter().zip(taker_txs.cets.iter()) {
        let wrong =
            if maker_cet.outcome_message == b"win".to_vec() { &lose_scalar } else { &win_scalar };
        let sighash = spending_tx_sighash(&maker_cet.tx, &commit_descriptor, commit_amount).unwrap();
        assert!(!verify(&decrypt(&maker_cet.encsig, wrong).unwrap(), &sighash, &public(MAKER)));
        assert!(!verify(&decrypt(&taker_cet.encsig, wrong).unwrap(), &sighash, &public(TAKER)));
    }
}

#[test]
fn punishment_scenario() {
    let setup = setup();
    let old_maker_txs = create(&setup, secret(MAKER)).unwrap();
    let lock_descriptor = lock_descriptor(public(MAKER), public(TAKER)).unwrap();
    let old_commit_descriptor = commit_descriptor_of(&setup);
    let lock_amount = 2 * ONE_BTC;

    // the contract is renewed with new keys on both sides
    let (new_maker_revocation, new_maker_publish, new_taker_revocation, new_taker_publish) =
        (13, 14, 15, 16);
    let new_maker = Party {
        identity_pk: public(MAKER),
        lock_amount: ONE_BTC,
        address: address(MAKER),
        punish: PunishParams {
            revocation_pk: public(new_maker_revocation),
            publish_pk: public(new_maker_publish),
        },
    };
    let new_taker = Party {
        identity_pk: public(TAKER),
        lock_amount: ONE_BTC,
        address: address(TAKER),
        punish: PunishParams {
            revocation_pk: public(new_taker_revocation),
            publish_pk: public(new_taker_publish),
        },
    };
    let new_maker_txs = renew_cfd_transactions(
        old_maker_txs.lock.clone(),
        new_maker.clone(),
        new_taker.clone(),
        setup.oracle_params,
        0,
        setup.payouts.clone(),
        &secret(MAKER),
    )
    .unwrap();
    let new_commit_descriptor = commit_descriptor(
        CommitKeys {
            identity: public(MAKER),
            revocation: new_maker.punish.revocation_pk,
            publish: new_maker.punish.publish_pk,
        },
        CommitKeys {
            identity: public(TAKER),
            revocation: new_taker.punish.revocation_pk,
            publish: new_taker.punish.publish_pk,
        },
    )
    .unwrap();
    assert_ne!(new_maker_txs.commit.0, old_maker_txs.commit.0);

    // the maker keeps track of the taker's keys, version by version; the
    // renewal hands it the taker's old secret revocation key
    let first = ContractVersion::first(setup.taker_punish);
    assert!(first.is_current());
    let (old_version, current_version) =
        first.renew(secret(TAKER_REVOCATION), new_taker.punish).ok().unwrap();
    assert!(!old_version.is_current());
    assert!(current_version.is_current());
    assert_eq!(current_version.id, 1);

    // the taker publishes the old commit transaction
    let published = published_by_taker(
        &old_maker_txs,
        &lock_descriptor,
        lock_amount,
        public(MAKER),
        &secret(TAKER_PUBLISH),
    );

    // the maker learns the taker's secret publish key from it
    let sighash =
        spending_tx_sighash(&old_maker_txs.commit.0, &lock_descriptor, lock_amount).unwrap();
    let maker_sig = decrypt(&old_maker_txs.commit.1, &secret(TAKER_PUBLISH)).unwrap();
    assert_eq!(
        recover(&old_maker_txs.commit.1, &maker_sig, &public(TAKER_PUBLISH)).map(|sk| sk.bytes),
        Ok([TAKER_PUBLISH; 32])
    );
    assert!(verify(&maker_sig, &sighash, &public(MAKER)));

    // and sweeps the whole output of the old commit transaction, less the fee
    let destination = address(40);
    let punish_tx = punish_transaction(
        &old_commit_descriptor,
        &destination,
        &old_maker_txs.commit.1,
        &secret(MAKER),
        &secret(TAKER_REVOCATION),
        &public(TAKER_PUBLISH),
        &published,
    )
    .unwrap();
    let old_commit_amount = old_maker_txs.commit.0.output[0].value;
    let (old_commit_outpoint, _) =
        published.outpoint(old_commit_descriptor.script_pubkey()).unwrap();
    assert_eq!(PUNISH_TX_FEE, 222);
    assert_eq!(punish_tx.input.len(), 1);
    assert_eq!(punish_tx.input[0].previous_output, old_commit_outpoint);
    assert_eq!(
        punish_tx.output,
        vec![TxOut {
            value: old_commit_amount - PUNISH_TX_FEE,
            script_pubkey: destination.script_pubkey.clone()
        }]
    );
    check_tx_fee(&vec![published.clone()], &punish_tx).unwrap();
    verify_script(&punish_tx, &old_commit_descriptor, old_commit_amount).unwrap();
    assert_eq!(
        old_version
            .punish(
                &old_commit_descriptor,
                &destination,
                &old_maker_txs.commit.1,
                &secret(MAKER),
                &published
            )
            .unwrap(),
        punish_tx
    );

    // the commit transaction of the version in force cannot be punished: the
    // taker's revocation key of that version has not been handed over
    let current = published_by_taker(
        &new_maker_txs,
        &lock_descriptor,
        lock_amount,
        public(MAKER),
        &secret(new_taker_publish),
    );
    assert_eq!(
        punish_transaction(
            &new_commit_descriptor,
            &destination,
            &new_maker_txs.commit.1,
            &secret(MAKER),
            &secret(TAKER_REVOCATION),
            &new_taker.punish.publish_pk,
            &current,
        ),
        Err(Error::NotPunishable)
    );
    assert_eq!(
        current_version.punish(
            &new_commit_descriptor,
            &destination,
            &new_maker_txs.commit.1,
            &secret(MAKER),
            &current
        ),
        Err(Error::NotPunishable)
    );
}

#[test]
fn punish_needs_a_transaction_that_pays_to_the_commit_descriptor() {
    let setup = setup();
    let maker_txs = create(&setup, secret(MAKER)).unwrap();
    let lock_descriptor = lock_descriptor(public(MAKER), public(TAKER)).unwrap();
    let published = published_by_taker(
        &maker_txs,
        &lock_descriptor,
        2 * ONE_BTC,
        public(MAKER),
        &secret(TAKER_PUBLISH),
    );

    // not the descriptor that the published transaction pays to
    assert_eq!(
        punish_transaction(
            &lock_descriptor,
            &address(40),
            &maker_txs.commit.1,
            &secret(MAKER),
            &secret(TAKER_REVOCATION),
            &public(TAKER_PUBLISH),
            &published,
        ),
        Err(Error::NotPunishable)
    );
    // a transaction without a signature in its witness gives nothing away
    assert_eq!(
        punish_transaction(
            &commit_descriptor_of(&setup),
            &address(40),
            &maker_txs.commit.1,
            &secret(MAKER),
            &secret(TAKER_REVOCATION),
            &public(TAKER_PUBLISH),
            &maker_txs.commit.0,
        ),
        Err(Error::NotPunishable)
    );
    // not the publish key that the signature was encrypted to
    assert_eq!(
        punish_transaction(
            &commit_descriptor_of(&setup),
            &address(40),
            &maker_txs.commit.1,
            &secret(MAKER),
            &secret(TAKER_REVOCATION),
            &public(MAKER_PUBLISH),
            &published,
        ),
        Err(Error::NotPunishable)
    );
}

#[test]
fn adaptor_signature_round_trip() {
    let sighash = [9u8; 32];
    let sk = secret(21);
    let pk = public(21);
    let decryption_sk = secret(22);
    let encryption_point = public(22);

    let encsig = encrypt(&sighash, &sk, &encryption_point).unwrap();
    assert!(verify_adaptor(&encsig, &sighash, &pk, &encryption_point));
    assert!(!verify_adaptor(&encsig, &sighash, &encryption_point, &pk));

    let signature = decrypt(&encsig, &decryption_sk).unwrap();
    assert!(verify(&signature, &sighash, &pk));
    assert!(!verify(&signature, &[8u8; 32], &pk));
    assert_eq!(decrypt_verified(&encsig, &decryption_sk, &sighash, &pk), Ok(signature));

    assert_eq!(
        recover(&encsig, &signature, &encryption_point).map(|sk| sk.bytes),
        Ok(decryption_sk.bytes)
    );
}

#[test]
fn recovery_needs_the_signature_that_was_decrypted() {
    let sighash = [9u8; 32];
    let encsig = encrypt(&sighash, &secret(21), &public(22)).unwrap();
    let unrelated = sign(&sighash, &secret(23)).unwrap();

    assert_eq!(
        recover(&encsig, &unrelated, &public(22)).map(|sk| sk.bytes),
        Err(Error::NotPunishable)
    );
}

#[test]
fn encryption_with_the_same_randomness_gives_the_same_signature() {
    let sighash = [9u8; 32];
    let first = encrypt_with_aux(&sighash, &secret(21), &public(22), &[1u8; 32]).unwrap();
    let again = encrypt_with_aux(&sighash, &secret(21), &public(22), &[1u8; 32]).unwrap();
    let other = encrypt_with_aux(&sighash, &secret(21), &public(22), &[2u8; 32]).unwrap();

    assert_eq!(first, again);
    assert_ne!(first, other);
    // whatever the randomness, the decrypted signature is valid
    assert!(verify(&decrypt(&first, &secret(22)).unwrap(), &sighash, &public(21)));
    assert!(verify(&decrypt(&other, &secret(22)).unwrap(), &sighash, &public(21)));
}

#[test]
fn malformed_keys_are_refused() {
    let zero = SecretKey { bytes: [0u8; 32] };
    assert_eq!(zero.public_key(), None);
    assert_eq!(sign(&[9u8; 32], &zero), Err(Error::DegenerateKeys));
    assert_eq!(encrypt(&[9u8; 32], &zero, &public(22)), Err(Error::DegenerateKeys));
    assert_eq!(
        encrypt(&[9u8; 32], &secret(21), &PublicKey { bytes: [0u8; 33] }),
        Err(Error::DegenerateKeys)
    );
    assert!(!PublicKey { bytes: [0u8; 33] }.is_valid());
    assert!(public(22).is_valid());
}

#[test]
fn building_is_deterministic_given_the_randomness() {
    let setup = setup();
    let build = |aux: [u8; 32]| {
        create_cfd_transactions_with(
            (setup.maker.clone(), setup.maker_punish),
            (setup.taker.clone(), setup.taker_punish),
            setup.oracle_params,
            0,
            setup.payouts.clone(),
            &secret(MAKER),
            &aux,
        )
        .unwrap()
    };
    let first = build([1u8; 32]);
    let again = build([1u8; 32]);
    let other = build([2u8; 32]);

    assert_eq!(first.commit, again.commit);
    assert_eq!(first.refund, again.refund);
    assert_eq!(first.cets[0].encsig, again.cets[0].encsig);
    assert_eq!(first.commit.0, other.commit.0);
    assert_ne!(first.commit.1, other.commit.1);
    assert_eq!(first.refund, other.refund);
}

#[test]
fn secret_key_of_a_stranger_is_refused() {
    let setup = setup();
    assert_eq!(create(&setup, secret(50)).unwrap_err(), Error::UnknownIdentity);
    assert_eq!(
        create(&setup, SecretKey { bytes: [0u8; 32] }).unwrap_err(),
        Error::DegenerateKeys
    );
}

#[test]
fn empty_outcome_message_is_refused() {
    let mut setup = setup();
    setup.payouts[1].outcome_message = vec![];
    assert_eq!(create(&setup, secret(MAKER)).unwrap_err(), Error::InvalidMessageEncoding);

    let oracle_pk = setup.oracle_params.oracle_pk;
    let nonce_pk = setup.oracle_params.nonce_pk;
    assert_eq!(
        compute_signature_point(&oracle_pk, &nonce_pk, b""),
        Err(Error::InvalidMessageEncoding)
    );
    assert_eq!(attest(&setup.oracle_sk, &setup.nonce_sk, b""), Err(Error::InvalidMessageEncoding));
}

#[test]
fn oracle_key_off_the_curve_is_refused() {
    // no point of the curve has this x coordinate
    let off_curve = XOnlyPublicKey { bytes: [0u8; 32] };
    let nonce_pk = x_only_public_key(&secret(8)).unwrap();
    assert_eq!(
        compute_signature_point(&off_curve, &nonce_pk, b"win"),
        Err(Error::DegenerateKeys)
    );
}

#[test]
fn equal_identity_keys_are_refused() {
    let mut setup = setup();
    setup.taker.identity_pk = setup.maker.identity_pk;
    assert_eq!(create(&setup, secret(MAKER)).unwrap_err(), Error::DegenerateKeys);
}

#[test]
fn publish_key_used_as_revocation_key_is_refused() {
    let mut setup = setup();
    setup.taker_punish.revocation_pk = setup.maker_punish.publish_pk;
    assert_eq!(create(&setup, secret(MAKER)).unwrap_err(), Error::DegenerateKeys);
}

#[test]
fn funding_that_does_not_cover_the_lock_amount_is_refused() {
    let mut setup = setup();
    setup.maker.funding_inputs.truncate(1);
    assert_eq!(create(&setup, secret(MAKER)).unwrap_err(), Error::FeePolicyViolation);
}

#[test]
fn lock_amounts_beyond_what_an_output_holds_are_refused() {
    let mut setup = setup();
    setup.maker.lock_amount = u64::MAX;
    assert_eq!(create(&setup, secret(MAKER)).unwrap_err(), Error::FeePolicyViolation);
}

#[test]
fn lock_amount_that_does_not_cover_the_fees_is_refused() {
    let mut setup = setup();
    setup.maker.lock_amount = 100;
    setup.maker.change_amount = 119_998_900;
    setup.payouts =
        vec![Payout::new(b"win".to_vec(), setup.oracle_params.nonce_pk, 100, ONE_BTC)];
    assert_eq!(create(&setup, secret(MAKER)).unwrap_err(), Error::FeePolicyViolation);
}

#[test]
fn payout_of_more_than_is_locked_is_refused() {
    let mut setup = setup();
    setup.payouts = vec![Payout::new(
        b"win".to_vec(),
        setup.oracle_params.nonce_pk,
        150_000_000,
        50_000_001,
    )];
    assert_eq!(create(&setup, secret(MAKER)).unwrap_err(), Error::FeePolicyViolation);

    // one satoshi less is what is locked
    setup.payouts = vec![Payout::new(
        b"win".to_vec(),
        setup.oracle_params.nonce_pk,
        150_000_000,
        50_000_000,
    )];
    assert!(create(&setup, secret(MAKER)).is_ok());
}

#[test]
fn outputs_below_the_dust_limit_are_left_out() {
    // an output to the hash of a public key is dust below 294 satoshi
    let mut setup = setup();
    let nonce_pk = setup.oracle_params.nonce_pk;
    setup.payouts = vec![
        Payout::new(b"dust".to_vec(), nonce_pk, 179 + 294, 2 * ONE_BTC - 179 - 294),
        Payout::new(b"more".to_vec(), nonce_pk, 179 + 295, 2 * ONE_BTC - 179 - 295),
    ];
    let txs = create(&setup, secret(MAKER)).unwrap();

    // the maker would keep exactly the dust limit: all it had goes to the fee
    assert_eq!(
        txs.cets[0].tx.output,
        vec![TxOut { value: 2 * ONE_BTC - 179 - 294, script_pubkey: address(TAKER).script_pubkey }]
    );
    assert_eq!(
        txs.cets[1].tx.output,
        vec![
            TxOut { value: 295, script_pubkey: address(MAKER).script_pubkey },
            TxOut { value: 2 * ONE_BTC - 358 - 295, script_pubkey: address(TAKER).script_pubkey },
        ]
    );

    // change below the dust limit is left out of the lock transaction
    setup.maker.change_amount = 293;
    setup.taker.change_amount = 294;
    let txs = create(&setup, secret(MAKER)).unwrap();
    assert_eq!(txs.lock.output.len(), 2);
    assert_eq!(
        txs.lock.output[1],
        TxOut { value: 294, script_pubkey: address(TAKER).script_pubkey }
    );
}

#[test]
fn renewal_needs_a_lock_transaction_that_pays_to_the_lock_descriptor() {
    let setup = setup();
    let txs = create(&setup, secret(MAKER)).unwrap();
    let stranger = Party {
        identity_pk: public(60),
        lock_amount: ONE_BTC,
        address: address(60),
        punish: PunishParams { revocation_pk: public(61), publish_pk: public(62) },
    };
    let taker = Party {
        identity_pk: public(TAKER),
        lock_amount: ONE_BTC,
        address: address(TAKER),
        punish: setup.taker_punish,
    };
    assert_eq!(
        renew_cfd_transactions(
            txs.lock,
            stranger,
            taker,
            setup.oracle_params,
            0,
            setup.payouts.clone(),
            &secret(TAKER),
        )
        .unwrap_err(),
        Error::MissingOutput
    );
}

#[test]
fn signatures_under_other_keys_do_not_finalize() {
    let setup = setup();
    let maker_txs = create(&setup, secret(MAKER)).unwrap();
    let taker_txs = create(&setup, secret(TAKER)).unwrap();
    let commit_descriptor = commit_descriptor_of(&setup);

    // the taker's signature given under a key that is not in the descriptor
    assert_eq!(
        finalize_spend_transaction(
            maker_txs.refund.0.clone(),
            &commit_descriptor,
            (public(MAKER), maker_txs.refund.1),
            (public(70), taker_txs.refund.1),
        ),
        Err(Error::ScriptSatisfaction)
    );
    // a transaction with two inputs
    let mut two_inputs = maker_txs.refund.0.clone();
    two_inputs.input.push(two_inputs.input[0].clone());
    assert_eq!(
        finalize_spend_transaction(
            two_inputs,
            &commit_descriptor,
            (public(MAKER), maker_txs.refund.1),
            (public(TAKER), taker_txs.refund.1),
        ),
        Err(Error::ScriptSatisfaction)
    );
    // the witness: the taker's signature, the maker's, and the script
    let signed = finalize_spend_transaction(
        maker_txs.refund.0.clone(),
        &commit_descriptor,
        (public(MAKER), maker_txs.refund.1),
        (public(TAKER), taker_txs.refund.1),
    )
    .unwrap();
    assert_eq!(signed.input[0].witness.len(), 3);
    assert_eq!(&signed.input[0].witness[2], commit_descriptor.script_code());
    assert_eq!(signed.output, maker_txs.refund.0.output);
    verify_script(&signed, &commit_descriptor, maker_txs.commit.0.output[0].value).unwrap();
}

#[test]
fn signatures_are_checked_before_they_go_into_a_witness() {
    let setup = setup();
    let maker_txs = create(&setup, secret(MAKER)).unwrap();
    let taker_txs = create(&setup, secret(TAKER)).unwrap();
    let commit_descriptor = commit_descriptor_of(&setup);
    let commit_amount = maker_txs.commit.0.output[0].value;

    let signed = finalize_verified_spend(
        maker_txs.refund.0.clone(),
        &commit_descriptor,
        commit_amount,
        (public(MAKER), maker_txs.refund.1),
        (public(TAKER), taker_txs.refund.1),
    )
    .unwrap();
    verify_script(&signed, &commit_descriptor, commit_amount).unwrap();

    // the two signatures under each other's keys: the witness would be well
    // formed, and not valid
    let swapped = finalize_spend_transaction(
        maker_txs.refund.0.clone(),
        &commit_descriptor,
        (public(MAKER), taker_txs.refund.1),
        (public(TAKER), maker_txs.refund.1),
    )
    .unwrap();
    assert!(verify_script(&swapped, &commit_descriptor, commit_amount).is_err());
    assert_eq!(
        finalize_verified_spend(
            maker_txs.refund.0.clone(),
            &commit_descriptor,
            commit_amount,
            (public(MAKER), taker_txs.refund.1),
            (public(TAKER), maker_txs.refund.1),
        ),
        Err(Error::ScriptSatisfaction)
    );
    // the signatures are for another amount
    assert_eq!(
        finalize_verified_spend(
            maker_txs.refund.0.clone(),
            &commit_descriptor,
            commit_amount + 1,
            (public(MAKER), maker_txs.refund.1),
            (public(TAKER), taker_txs.refund.1),
        ),
        Err(Error::ScriptSatisfaction)
    );
}

#[test]
fn sighash_of_a_transaction_without_inputs() {
    let setup = setup();
    let descriptor = commit_descriptor_of(&setup);
    let empty = Transaction { version: 2, lock_time: 0, input: vec![], output: vec![] };
    assert_eq!(spending_tx_sighash(&empty, &descriptor, 1), None);
}

#[test]
fn sighash_is_that_of_the_bitcoin_crate() {
    let setup = setup();
    let txs = create(&setup, secret(MAKER)).unwrap();
    let descriptor = commit_descriptor_of(&setup);
    let amount = txs.commit.0.output[0].value;
    let tx = to_bitcoin(&txs.refund.0);
    let expected = bitcoin::util::bip143::SigHashCache::new(&tx).signature_hash(
        0,
        &bitcoin::Script::from(descriptor.script_code().clone()),
        amount,
        bitcoin::SigHashType::All,
    );
    assert_eq!(
        spending_tx_sighash(&txs.refund.0, &descriptor, amount).unwrap().to_vec(),
        bitcoin::hashes::Hash::into_inner(expected).to_vec()
    );
    assert_ne!(
        spending_tx_sighash(&txs.refund.0, &descriptor, amount),
        spending_tx_sighash(&txs.refund.0, &descriptor, amount + 1)
    );
}

#[test]
fn fee_floor() {
    // a fee of exactly a quarter of the weight is accepted
    assert_eq!(check_fee(1_150, 1_000, 600), Ok(()));
    assert_eq!(check_fee(1_149, 1_000, 600), Err(Error::BelowMinRelayFee));
    // a weight that is no multiple of four is rounded up
    assert_eq!(check_fee(1_150, 1_000, 601), Err(Error::BelowMinRelayFee));
    assert_eq!(check_fee(1_151, 1_000, 601), Ok(()));
    // more comes out than goes in
    assert_eq!(check_fee(1_000, 1_001, 0), Err(Error::BelowMinRelayFee));
    assert_eq!(check_fee(0, 0, 0), Ok(()));
}

#[test]
fn fee_floor_of_a_transaction() {
    let spent = Transaction {
        version: 2,
        lock_time: 0,
        input: vec![],
        output: vec![
            TxOut { value: 7, script_pubkey: address(1).script_pubkey },
            TxOut { value: 100_000, script_pubkey: address(2).script_pubkey },
        ],
    };
    let (outpoint, value) = spent.outpoint(&address(2).script_pubkey).unwrap();
    assert_eq!(outpoint.vout, 1);
    assert_eq!(outpoint.txid.to_vec(), bitcoin::hashes::Hash::into_inner(to_bitcoin(&spent).txid()).to_vec());
    assert_eq!(value, 100_000);

    let spend = |fee: u64| Transaction {
        version: 2,
        lock_time: 0,
        input: vec![TxIn { previous_output: outpoint, sequence: SEQUENCE_FINAL, witness: vec![] }],
        output: vec![TxOut { value: 100_000 - fee, script_pubkey: address(3).script_pubkey }],
    };
    let weight = to_bitcoin(&spend(0)).get_weight() as u64;
    assert_eq!(weight, 328);
    let floor = (weight + 3) / 4;
    assert_eq!(floor, 82);

    let inputs = vec![spent.clone()];
    assert_eq!(check_tx_fee(&inputs, &spend(floor)), Ok(()));
    assert_eq!(check_tx_fee(&inputs, &spend(floor - 1)), Err(Error::BelowMinRelayFee));
    assert_eq!(check_tx_fee(&inputs, &spend(floor + 1)), Ok(()));

    // the spent output is not among the transactions
    assert_eq!(check_tx_fee(&vec![], &spend(floor)), Err(Error::MissingOutput));
    let mut beyond = spend(floor);
    beyond.input[0].previous_output.vout = 2;
    assert_eq!(check_tx_fee(&inputs, &beyond), Err(Error::MissingOutput));
}

#[test]
fn fee_is_taken_out_of_both_amounts() {
    let dust = 294;
    // each pays half
    assert_eq!(with_updated_fee(10_000, 20_000, 358, dust, dust), Ok((9_821, 19_821)));
    // the maker has nothing: the taker pays everything
    assert_eq!(with_updated_fee(0, 20_000, 358, dust, dust), Ok((0, 19_642)));
    // the maker would be left with dust: what it had goes towards the fee
    assert_eq!(with_updated_fee(300, 20_000, 358, dust, dust), Ok((0, 19_942)));
    assert_eq!(with_updated_fee(20_000, 300, 358, dust, dust), Ok((19_942, 0)));
    // the maker has more than the fee and still cannot keep an output
    assert_eq!(with_updated_fee(400, 20_000, 358, dust, dust), Ok((0, 20_000)));
    // the maker would be left with exactly the dust limit
    assert_eq!(with_updated_fee(179 + 294, 20_000, 358, dust, dust), Ok((0, 20_000)));
    assert_eq!(with_updated_fee(179 + 295, 20_000, 358, dust, dust), Ok((295, 19_821)));
    // neither can pay
    assert_eq!(with_updated_fee(300, 300, 358, dust, dust), Err(Error::FeePolicyViolation));
    assert_eq!(with_updated_fee(0, 0, 358, dust, dust), Err(Error::FeePolicyViolation));
}

#[test]
fn contract_version_is_revoked_once() {
    let taker_punish = PunishParams {
        revocation_pk: public(TAKER_REVOCATION),
        publish_pk: public(TAKER_PUBLISH),
    };
    let next = PunishParams { revocation_pk: public(15), publish_pk: public(16) };
    let first = ContractVersion::first(taker_punish);

    // not the secret key of the revocation key
    assert_eq!(first.renew(secret(TAKER_PUBLISH), next).err(), Some(Error::DegenerateKeys));
    // a key of the old version used again
    let reused = PunishParams { revocation_pk: public(15), publish_pk: public(TAKER_PUBLISH) };
    assert_eq!(first.renew(secret(TAKER_REVOCATION), reused).err(), Some(Error::DegenerateKeys));

    let (old, current) = first.renew(secret(TAKER_REVOCATION), next).ok().unwrap();
    assert_eq!(old.id, 0);
    assert_eq!(old.revoked.as_ref().map(|sk| sk.bytes), Some([TAKER_REVOCATION; 32]));
    assert_eq!(current.id, 1);
    assert!(current.revoked.is_none());
    assert_eq!(old.renew(secret(TAKER_REVOCATION), next).err(), Some(Error::Superseded));
}

#[test]
fn every_error_has_a_description() {
    assert_eq!(Error::BelowMinRelayFee.describe(), "min relay fee not met");
    assert_eq!(
        Error::UnknownIdentity.describe(),
        "identity sk does not belong to taker or maker"
    );
    for error in [
        Error::DegenerateKeys,
        Error::InvalidMessageEncoding,
        Error::ScriptSatisfaction,
        Error::FeePolicyViolation,
        Error::MissingOutput,
        Error::NotPunishable,
        Error::Superseded,
    ] {
        assert!(!error.describe().is_empty());
    }
}

/// The transaction in the form of the `bitcoin` crate.
fn to_bitcoin(tx: &Transaction) -> bitcoin::Transaction {
    bitcoin::Transaction {
        version: tx.version,
        lock_time: tx.lock_time,
        input: tx
            .input
            .iter()
            .map(|input| bitcoin::TxIn {
                previous_output: bitcoin::OutPoint {
                    txid: bitcoin::hashes::Hash::from_inner(input.previous_output.txid),
                    vout: input.previous_output.vout,
                },
                script_sig: bitcoin::Script::new(),
                sequence: input.sequence,
                witness: input.witness.clone(),
            })
            .collect(),
        output: tx
            .output
            .iter()
            .map(|output| bitcoin::TxOut {
                value: output.value,
                script_pubkey: bitcoin::Script::from(output.script_pubkey.clone()),
            })
            .collect(),
    }
}

/// Runs the witness of the only input of `tx` against the script of the spent
/// descriptor, and checks every signature on the way.
fn verify_script(
    tx: &Transaction,
    spent_descriptor: &Descriptor,
    spent_amount: u64,
) -> Result<(), String> {
    let tx = to_bitcoin(tx);
    let script_pubkey = bitcoin::Script::from(spent_descriptor.script_pubkey().clone());
    let script_sig = bitcoin::Script::new();
    let mut interpreter = miniscript::Interpreter::from_txdata(
        &script_pubkey,
        &script_sig,
        &tx.input[0].witness,
        0,
        0,
    )
    .map_err(|e| format!("{:?}", e))?;
    let secp = bitcoin::secp256k1::Secp256k1::verification_only();
    let check_signature = interpreter.sighash_verify(&secp, &tx, 0, spent_amount);
    for constraint in interpreter.iter(check_signature) {
        constraint.map_err(|e| format!("{:?}", e))?;
    }

    Ok(())
}
