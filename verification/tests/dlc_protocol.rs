use cfd_protocol::chain::descriptor::{CommitKeys, Descriptor};
use cfd_protocol::chain::transaction::{OutPoint, Transaction};
use cfd_protocol::contract::params::{Address, FundingInput};
use cfd_protocol::crypto::adaptor::{decrypt, verify, verify_adaptor};
use cfd_protocol::crypto::keys::{PublicKey, SchnorrSignature, SecretKey, XOnlyPublicKey};
use cfd_protocol::crypto::oracle::{attest, decompose, x_only_public_key};
use cfd_protocol::{
    check_tx_fee, commit_descriptor, compute_signature_point, create_cfd_transactions,
    finalize_spend_transaction, lock_descriptor, punish_transaction, spending_tx_sighash,
    OracleParams, PartyParams, Payout, PunishParams,
};
use rand_chacha::rand_core::{RngCore, SeedableRng};
use rand_chacha::ChaChaRng;
use std::collections::HashMap;

#[test]
fn run_cfd_protocol() {
    let mut rng = ChaChaRng::seed_from_u64(0);

    let maker_lock_amount = 100_000_000;
    let taker_lock_amount = 100_000_000;

    let oracle = Oracle::new(&mut rng);
    let (event, announcement) = announce(&mut rng);

    let (maker_sk, maker_pk) = make_keypair(&mut rng);
    let (taker_sk, taker_pk) = make_keypair(&mut rng);

    let payouts = vec![
        Payout::new(b"win".to_vec(), event.nonce_pk, 200_000_000, 0),
        Payout::new(b"lose".to_vec(), event.nonce_pk, 0, 200_000_000),
    ];

    let refund_timelock = 0;

    let maker_wallet = build_wallet(&mut rng, 40_000_000, 5);
    let taker_wallet = build_wallet(&mut rng, 40_000_000, 5);

    let maker_address = maker_wallet.address.clone();
    let taker_address = taker_wallet.address.clone();

    let lock_amount = maker_lock_amount + taker_lock_amount;
    let (maker_revocation_sk, maker_revocation_pk) = make_keypair(&mut rng);
    let (maker_publish_sk, maker_publish_pk) = make_keypair(&mut rng);

    let (taker_revocation_sk, taker_revocation_pk) = make_keypair(&mut rng);
    let (taker_publish_sk, taker_publish_pk) = make_keypair(&mut rng);

    let maker_params = maker_wallet.build_party_params(maker_lock_amount, maker_pk);
    let taker_params = taker_wallet.build_party_params(taker_lock_amount, taker_pk);

    let maker_cfd_txs = create_cfd_transactions(
        (
            maker_params.clone(),
            PunishParams { revocation_pk: maker_revocation_pk, publish_pk: maker_publish_pk },
        ),
        (
            taker_params.clone(),
            PunishParams { revocation_pk: taker_revocation_pk, publish_pk: taker_publish_pk },
        ),
        OracleParams { oracle_pk: oracle.public_key(), nonce_pk: event.nonce_pk },
        refund_timelock,
        payouts.clone(),
        &maker_sk,
    )
    .unwrap();

    let taker_cfd_txs = create_cfd_transactions(
        (
            maker_params,
            PunishParams { revocation_pk: maker_revocation_pk, publish_pk: maker_publish_pk },
        ),
        (
            taker_params,
            PunishParams { revocation_pk: taker_revocation_pk, publish_pk: taker_publish_pk },
        ),
        OracleParams { oracle_pk: oracle.public_key(), nonce_pk: event.nonce_pk },
        refund_timelock,
        payouts,
        &taker_sk,
    )
    .unwrap();

    let commit_descriptor = commit_descriptor(
        CommitKeys {
            identity: maker_pk,
            revocation: maker_revocation_pk,
            publish: maker_publish_pk,
        },
        CommitKeys {
            identity: taker_pk,
            revocation: taker_revocation_pk,
            publish: taker_publish_pk,
        },
    )
    .unwrap();

    let commit_amount = maker_cfd_txs.commit.0.output[0].value;
    assert_eq!(commit_amount, taker_cfd_txs.commit.0.output[0].value);

    {
        let refund_sighash =
            spending_tx_sighash(&taker_cfd_txs.refund.0, &commit_descriptor, commit_amount)
                .unwrap();
        assert!(
            verify(&maker_cfd_txs.refund.1, &refund_sighash, &maker_pk),
            "valid maker refund sig"
        )
    };

    {
        let refund_sighash =
            spending_tx_sighash(&maker_cfd_txs.refund.0, &commit_descriptor, commit_amount)
                .unwrap();
        assert!(
            verify(&taker_cfd_txs.refund.1, &refund_sighash, &taker_pk),
            "valid taker refund sig"
        )
    };

    // both parties build the transactions in the order of the payouts
    for (maker_cet, taker_cet) in maker_cfd_txs.cets.iter().zip(taker_cfd_txs.cets.iter()) {
        let cet_sighash = {
            let maker_sighash =
                spending_tx_sighash(&maker_cet.tx, &commit_descriptor, commit_amount).unwrap();
            let taker_sighash =
                spending_tx_sighash(&taker_cet.tx, &commit_descriptor, commit_amount).unwrap();

            assert_eq!(maker_sighash, taker_sighash);
            maker_sighash
        };

        let encryption_point = {
            let maker_encryption_point = compute_signature_point(
                &oracle.public_key(),
                &announcement.nonce_pk(),
                &maker_cet.outcome_message,
            )
            .unwrap();
            let taker_encryption_point = compute_signature_point(
                &oracle.public_key(),
                &announcement.nonce_pk(),
                &taker_cet.outcome_message,
            )
            .unwrap();

            assert_eq!(maker_encryption_point, taker_encryption_point);
            maker_encryption_point
        };

        let maker_encsig = maker_cet.encsig;
        assert!(
            verify_adaptor(&maker_encsig, &cet_sighash, &maker_pk, &encryption_point),
            "valid maker cet encsig"
        );

        let taker_encsig = taker_cet.encsig;
        assert!(
            verify_adaptor(&taker_encsig, &cet_sighash, &taker_pk, &encryption_point),
            "valid taker cet encsig"
        );
    }

    let lock_descriptor = lock_descriptor(maker_pk, taker_pk).unwrap();

    {
        let commit_sighash =
            spending_tx_sighash(&maker_cfd_txs.commit.0, &lock_descriptor, lock_amount).unwrap();
        let commit_encsig = maker_cfd_txs.commit.1;
        assert!(
            verify_adaptor(&commit_encsig, &commit_sighash, &maker_pk, &taker_publish_pk),
            "valid maker commit encsig"
        );
    };

    {
        let commit_sighash =
            spending_tx_sighash(&taker_cfd_txs.commit.0, &lock_descriptor, lock_amount).unwrap();
        let commit_encsig = taker_cfd_txs.commit.1;
        assert!(
            verify_adaptor(&commit_encsig, &commit_sighash, &taker_pk, &maker_publish_pk),
            "valid taker commit encsig"
        );
    };

    // the lock transaction is signed by the wallets, which does not change its id

    let signed_lock_tx = maker_cfd_txs.lock.clone();

    // verify commit transaction

    let commit_tx = maker_cfd_txs.commit.0.clone();
    let maker_sig = decrypt(&maker_cfd_txs.commit.1, &taker_publish_sk).unwrap();
    let taker_sig = decrypt(&taker_cfd_txs.commit.1, &maker_publish_sk).unwrap();
    let signed_commit_tx = finalize_spend_transaction(
        commit_tx,
        &lock_descriptor,
        (maker_pk, maker_sig),
        (taker_pk, taker_sig),
    )
    .unwrap();

    check_tx_fee(&vec![signed_lock_tx], &signed_commit_tx).expect("correct fees for commit tx");

    verify_script(&signed_commit_tx, &lock_descriptor, lock_amount)
        .expect("valid signed commit transaction");

    // verify refund transaction

    let maker_sig = maker_cfd_txs.refund.1;
    let taker_sig = taker_cfd_txs.refund.1;
    let signed_refund_tx = finalize_spend_transaction(
        maker_cfd_txs.refund.0.clone(),
        &commit_descriptor,
        (maker_pk, maker_sig),
        (taker_pk, taker_sig),
    )
    .unwrap();

    check_tx_fee(&vec![signed_commit_tx.clone()], &signed_refund_tx)
        .expect("correct fees for refund tx");

    verify_script(&signed_refund_tx, &commit_descriptor, commit_amount)
        .expect("valid signed refund transaction");

    // verify cets

    let attestations = [b"win".to_vec(), b"lose".to_vec()]
        .iter()
        .map(|msg| (msg.clone(), oracle.attest(&event, msg)))
        .collect::<HashMap<_, _>>();

    maker_cfd_txs
        .cets
        .iter()
        .zip(taker_cfd_txs.cets.iter())
        .try_for_each(|(maker_cet, taker_cet)| {
            let oracle_sig = attestations
                .get(&maker_cet.outcome_message)
                .expect("oracle to sign all messages in test");
            let (_nonce_pk, signature_scalar) = schnorrsig_decompose(oracle_sig);

            let maker_sig = decrypt(&maker_cet.encsig, &signature_scalar)
                .map_err(|_| "could not decrypt maker encsig on cet".to_string())?;
            let taker_sig = decrypt(&taker_cet.encsig, &signature_scalar)
                .map_err(|_| "could not decrypt taker encsig on cet".to_string())?;

            let signed_cet = finalize_spend_transaction(
                maker_cet.tx.clone(),
                &commit_descriptor,
                (maker_pk, maker_sig),
                (taker_pk, taker_sig),
            )
            .map_err(|e| format!("{:?}", e))?;

            check_tx_fee(&vec![signed_commit_tx.clone()], &signed_cet)
                .expect("correct fees for cet");

            verify_script(&signed_cet, &commit_descriptor, commit_amount)
                .map_err(|e| format!("failed to verify cet: {}", e))
        })
        .expect("all cets to be properly signed");

    // verify punishment transactions

    let punish_tx = punish_transaction(
        &commit_descriptor,
        &maker_address,
        &maker_cfd_txs.commit.1,
        &maker_sk,
        &taker_revocation_sk,
        &taker_publish_pk,
        &signed_commit_tx,
    )
    .unwrap();

    check_tx_fee(&vec![signed_commit_tx.clone()], &punish_tx).expect("correct fees for punish tx");

    verify_script(&punish_tx, &commit_descriptor, commit_amount)
    .expect("valid punish transaction signed by maker");

    let punish_tx = punish_transaction(
        &commit_descriptor,
        &taker_address,
        &taker_cfd_txs.commit.1,
        &taker_sk,
        &maker_revocation_sk,
        &maker_publish_pk,
        &signed_commit_tx,
    )
    .unwrap();

    verify_script(&punish_tx, &commit_descriptor, commit_amount)
    .expect("valid punish transaction signed by taker");
}

/// The transaction in the form of the `bitcoin` crate.
fn to_bitcoin(tx: &Transaction) -> bitcoin::Transaction {
    bitcoin::Transaction {
        version: tx.version,
        lock_time: tx.lock_time,
        input: tx
            .input
            .iter()
            .map(|input| bitcoin::TxIn {
                previous_output: bitcoin::OutPoint {
                    txid: bitcoin::hashes::Hash::from_inner(input.previous_output.txid),
                    vout: input.previous_output.vout,
                },
                script_sig: bitcoin::Script::new(),
                sequence: input.sequence,
                witness: input.witness.clone(),
            })
            .collect(),
        output: tx
            .output
            .iter()
            .map(|output| bitcoin::TxOut {
                value: output.value,
                script_pubkey: bitcoin::Script::from(output.script_pubkey.clone()),
            })
            .collect(),
    }
}

/// Runs the witness of the only input of `tx` against the script of the spent
/// descriptor, and checks every signature on the way.
fn verify_script(
    tx: &Transaction,
    spent_descriptor: &Descriptor,
    spent_amount: u64,
) -> Result<(), String> {
    let tx = to_bitcoin(tx);
    let script_pubkey = bitcoin::Script::from(spent_descriptor.script_pubkey().clone());
    let script_sig = bitcoin::Script::new();
    let mut interpreter = miniscript::Interpreter::from_txdata(
        &script_pubkey,
        &script_sig,
        &tx.input[0].witness,
        0,
        0,
    )
    .map_err(|e| format!("{:?}", e))?;
    let secp = bitcoin::secp256k1::Secp256k1::verification_only();
    let check_signature = interpreter.sighash_verify(&secp, &tx, 0, spent_amount);
    for constraint in interpreter.iter(check_signature) {
        constraint.map_err(|e| format!("{:?}", e))?;
    }

    Ok(())
}

/// Stands in for a wallet: a number of confirmed outputs of one amount, and an
/// address.
struct Wallet {
    utxos: Vec<FundingInput>,
    address: Address,
}

impl Wallet {
    /// Picks outputs until the lock amount and a fee of 1000 satoshi are
    /// covered, and returns the rest as change.
    fn build_party_params(&self, amount: u64, identity_pk: PublicKey) -> PartyParams {
        let fee = 1000;
        let mut funding_inputs = Vec::new();
        let mut total = 0;
        for utxo in self.utxos.iter() {
            if total >= amount + fee {
                break;
            }
            funding_inputs.push(*utxo);
            total += utxo.amount;
        }
        PartyParams {
            identity_pk,
            funding_inputs,
            change_address: self.address.clone(),
            change_amount: total - amount - fee,
            lock_amount: amount,
        }
    }
}

fn build_wallet(rng: &mut ChaChaRng, utxo_amount: u64, num_utxos: u8) -> Wallet {
    let mut utxos = Vec::new();
    for index in 0..num_utxos {
        let mut txid = [0u8; 32];
        rng.fill_bytes(&mut txid);
        utxos.push(FundingInput {
            outpoint: OutPoint { txid, vout: index as u32 },
            amount: utxo_amount,
        });
    }
    let mut key_hash = [0u8; 20];
    rng.fill_bytes(&mut key_hash);
    let mut script_pubkey = vec![0x00, 0x14];
    script_pubkey.extend_from_slice(&key_hash);

    Wallet { utxos, address: Address { script_pubkey } }
}

struct Oracle {
    sk: SecretKey,
}

impl Oracle {
    fn new(rng: &mut ChaChaRng) -> Self {
        let (sk, _) = make_keypair(rng);

        Self { sk }
    }

    fn public_key(&self) -> XOnlyPublicKey {
        x_only_public_key(&self.sk).unwrap()
    }

    fn attest(&self, event: &Event, msg: &[u8]) -> SchnorrSignature {
        attest(&self.sk, &event.nonce, msg).unwrap()
    }
}

fn announce(rng: &mut ChaChaRng) -> (Event, Announcement) {
    let event = Event::new(rng);
    let announcement = event.announcement();

    (event, announcement)
}

/// Represents the oracle's commitment to a nonce that will be used to
/// sign a specific event in the future.
struct Event {
    /// Nonce.
    ///
    /// Must remain secret.
    nonce: SecretKey,
    nonce_pk: XOnlyPublicKey,
}

impl Event {
    fn new(rng: &mut ChaChaRng) -> Self {
        let (nonce, _) = make_keypair(rng);
        let nonce_pk = x_only_public_key(&nonce).unwrap();

        Self { nonce, nonce_pk }
    }

    fn announcement(&self) -> Announcement {
        Announcement { nonce_pk: self.nonce_pk }
    }
}

/// Public message which can be used by anyone to perform a DLC
/// protocol based on a specific event.
#[derive(Clone, Copy)]
struct Announcement {
    nonce_pk: XOnlyPublicKey,
}

impl Announcement {
    fn nonce_pk(&self) -> XOnlyPublicKey {
        self.nonce_pk
    }
}

fn make_keypair(rng: &mut ChaChaRng) -> (SecretKey, PublicKey) {
    loop {
        let mut bytes = [0u8; 32];
        rng.fill_bytes(&mut bytes);
        let sk = SecretKey { bytes };
        if let Some(pk) = sk.public_key() {
            return (sk, pk);
        }
    }
}

/// Decompose a BIP340 signature into R and s.
pub fn schnorrsig_decompose(signature: &SchnorrSignature) -> (XOnlyPublicKey, SecretKey) {
    decompose(signature)
}
