use cfd_protocol::chain::descriptor::{commit_descriptor, lock_descriptor, CommitKeys};
use cfd_protocol::error::Error;
use cfd_protocol::crypto::keys::{PublicKey, SecretKey};
use cfd_protocol::crypto::oracle::x_only_public_key;
use cfd_protocol::contract::params::{
    Address, FundingInput, OracleParams, PartyParams, Payout, PunishParams,
};
use cfd_protocol::contract::protocol::{create_cfd_transactions, CfdTransactions};
use cfd_protocol::daemon::taker_cfd_actor::{on_command, Action, Command, SetupError};
use cfd_protocol::contract::setup::{finalize_setup, Msg0, Msg1, SetupKeys, SetupMsg, SetupStage};
use cfd_protocol::chain::transaction::OutPoint;

fn secret(seed: u8) -> SecretKey {
    SecretKey { bytes: [seed; 32] }
}

fn public(seed: u8) -> PublicKey {
    secret(seed).public_key().unwrap()
}

fn party_params(seed: u8) -> PartyParams {
    let mut script_pubkey = vec![0x00, 0x14];
    script_pubkey.extend_from_slice(&[seed; 20]);
    PartyParams {
        identity_pk: public(seed),
        funding_inputs: vec![FundingInput {
            outpoint: OutPoint { txid: [seed; 32], vout: 0 },
            amount: 120_000_000,
        }],
        change_address: Address { script_pubkey },
        change_amount: 19_999_000,
        lock_amount: 100_000_000,
    }
}

const MAKER: u8 = 1;
const TAKER: u8 = 2;

fn maker_punish() -> PunishParams {
    PunishParams { revocation_pk: public(3), publish_pk: public(4) }
}

fn taker_punish() -> PunishParams {
    PunishParams { revocation_pk: public(5), publish_pk: public(6) }
}

fn taker_keys() -> SetupKeys {
    SetupKeys { identity: secret(TAKER), revocation: secret(5), publish: secret(6) }
}

fn oracle_params() -> OracleParams {
    OracleParams {
        oracle_pk: x_only_public_key(&secret(7)).unwrap(),
        nonce_pk: x_only_public_key(&secret(8)).unwrap(),
    }
}

fn bundle(identity_sk: SecretKey) -> CfdTransactions {
    let nonce_pk = oracle_params().nonce_pk;
    create_cfd_transactions(
        (party_params(MAKER), maker_punish()),
        (party_params(TAKER), taker_punish()),
        oracle_params(),
        0,
        vec![
            Payout::new(b"win".to_vec(), nonce_pk, 150_000_000, 50_000_000),
            Payout::new(b"lose".to_vec(), nonce_pk, 0, 200_000_000),
        ],
        &identity_sk,
    )
    .unwrap()
}

fn finalize(own: CfdTransactions, theirs: Msg1) -> Result<cfd_protocol::contract::setup::FinalizedCfd, Error> {
    let lock_descriptor = lock_descriptor(public(MAKER), public(TAKER)).unwrap();
    let commit_descriptor = commit_descriptor(
        CommitKeys { identity: public(MAKER), revocation: public(3), publish: public(4) },
        CommitKeys { identity: public(TAKER), revocation: public(5), publish: public(6) },
    )
    .unwrap();
    finalize_setup(
        taker_keys(),
        own,
        theirs,
        &public(MAKER),
        &taker_punish().publish_pk,
        &oracle_params().oracle_pk,
        &lock_descriptor,
        200_000_000,
        &commit_descriptor,
    )
}

#[test]
fn handshake_is_two_messages_in_order() {
    let msg0 = SetupMsg::Msg0(Msg0 { params: party_params(MAKER), punish: maker_punish() });
    let msg1 = SetupMsg::Msg1(Msg1::from_transactions(&bundle(secret(MAKER))));

    assert_eq!(SetupStage::AwaitingParams.advance(&msg0), Ok(SetupStage::AwaitingSignatures));
    assert_eq!(SetupStage::AwaitingSignatures.advance(&msg1), Ok(SetupStage::Finished));

    assert_eq!(SetupStage::AwaitingParams.advance(&msg1), Err(Error::UnexpectedMessage));
    assert_eq!(SetupStage::AwaitingSignatures.advance(&msg0), Err(Error::UnexpectedMessage));
    assert_eq!(SetupStage::Finished.advance(&msg0), Err(Error::UnexpectedMessage));
    assert_eq!(SetupStage::Finished.advance(&msg1), Err(Error::UnexpectedMessage));
}

#[test]
fn signatures_of_a_bundle() {
    let txs = bundle(secret(MAKER));
    let msg = Msg1::from_transactions(&txs);

    assert_eq!(msg.commit, txs.commit.1);
    assert_eq!(msg.refund, txs.refund.1);
    assert_eq!(msg.cets.len(), 2);
    for (signature, cet) in msg.cets.iter().zip(txs.cets.iter()) {
        assert_eq!(signature.encsig, cet.encsig);
        let (outpoint, _) = cet.tx.outpoint(&cet.tx.output[0].script_pubkey).unwrap();
        assert_eq!(signature.txid, outpoint.txid);
    }
}

#[test]
fn taker_keeps_the_signatures_of_the_maker() {
    let own = bundle(secret(TAKER));
    let maker = bundle(secret(MAKER));
    let mut theirs = Msg1::from_transactions(&maker);
    // the order of the signatures is that of the other party
    theirs.cets.reverse();

    let finalized = finalize(own, theirs.clone()).ok().unwrap();

    assert_eq!(finalized.identity.bytes, [TAKER; 32]);
    assert_eq!(finalized.revocation.bytes, [5; 32]);
    assert_eq!(finalized.publish.bytes, [6; 32]);
    assert_eq!(finalized.lock, maker.lock);
    assert_eq!(finalized.commit, (maker.commit.0.clone(), maker.commit.1));
    assert_eq!(finalized.refund, (maker.refund.0.clone(), maker.refund.1));
    assert_eq!(finalized.cets.len(), 2);
    assert_eq!(finalized.cets[0].tx, maker.cets[1].tx);
    assert_eq!(finalized.cets[0].encsig, maker.cets[1].encsig);
    assert_eq!(finalized.cets[0].outcome_message, b"lose".to_vec());
    assert_eq!(finalized.cets[1].tx, maker.cets[0].tx);
    assert_eq!(finalized.cets[1].outcome_message, b"win".to_vec());
}

#[test]
fn signatures_that_are_not_valid_are_not_kept() {
    let maker = bundle(secret(MAKER));
    let taker = bundle(secret(TAKER));

    // our own signatures are not those of the maker
    assert_eq!(
        finalize(bundle(secret(TAKER)), Msg1::from_transactions(&taker)).err(),
        Some(Error::ScriptSatisfaction)
    );
    // the refund signature of somebody else
    let mut theirs = Msg1::from_transactions(&maker);
    theirs.refund = taker.refund.1;
    assert_eq!(finalize(bundle(secret(TAKER)), theirs).err(),
        Some(Error::ScriptSatisfaction));
    // the signature on one outcome given for the other
    let mut theirs = Msg1::from_transactions(&maker);
    let first = theirs.cets[0].encsig;
    theirs.cets[0].encsig = theirs.cets[1].encsig;
    theirs.cets[1].encsig = first;
    assert_eq!(finalize(bundle(secret(TAKER)), theirs).err(),
        Some(Error::ScriptSatisfaction));
    // a signature is missing
    let mut theirs = Msg1::from_transactions(&maker);
    theirs.cets.pop();
    assert_eq!(finalize(bundle(secret(TAKER)), theirs).err(),
        Some(Error::UnknownCet));
    // a signature for a transaction that is not ours
    let mut theirs = Msg1::from_transactions(&maker);
    theirs.cets[1].txid = [0; 32];
    assert_eq!(finalize(bundle(secret(TAKER)), theirs).err(),
        Some(Error::UnknownCet));
}

#[test]
fn protocol_message_without_a_setup_is_refused() {
    let msg = SetupMsg::Msg0(Msg0 { params: party_params(MAKER), punish: maker_punish() });

    assert_eq!(
        on_command(false, Command::IncProtocolMsg(msg.clone())).unwrap_err(),
        SetupError::NoSetup
    );
    let (actions, running) = on_command(true, Command::IncProtocolMsg(msg)).unwrap();
    assert!(running);
    assert!(matches!(actions[..], [Action::ForwardToSetup(SetupMsg::Msg0(_))]));
}
