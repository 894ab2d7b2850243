//! The handshake by which two parties set up a contract.
//!
//! Each party sends what it brings to the lock transaction and its keys for
//! the first version; builds its bundle from both sets of parameters; sends
//! its signatures; and checks the signatures of the other party before it
//! keeps them. The messages travel outside this library: here is what a party
//! sends, what it expects next, and what it makes of an answer.

use vstd::prelude::*;
use crate::bytes::{bytes_eq, copy_bytes};
use crate::chain::descriptor::{Descriptor, DescriptorView};
use crate::chain::finalize::{spending_sighash_of, spending_tx_sighash};
use crate::chain::transaction::{transaction_id, txid_of, Transaction, TransactionView};
use crate::contract::params::{PartyParams, PunishParams};
use crate::contract::protocol::{Cet, CetView, CfdTransactions, CfdTransactionsView};
use crate::crypto::adaptor::{verify, verify_adaptor};
use crate::crypto::keys::{AdaptorSignature, PublicKey, SecretKey, Signature, XOnlyPublicKey};
use crate::crypto::oracle::{compute_signature_point, signature_point_of};
use crate::crypto::secp::{adaptor_valid, ecdsa_valid};
use crate::error::Error;

verus! {

/// The first message of the handshake: what a party brings to the lock
/// transaction, and its keys for the first version of the contract.
#[derive(Clone, Debug)]
pub struct Msg0 {
    pub params: PartyParams,
    pub punish: PunishParams,
}

/// Our adaptor signature on one contract execution transaction, with the
/// identifier of the transaction.
#[derive(Clone, Copy, Debug, PartialEq, Eq)]
pub struct CetSignature {
    pub txid: [u8; 32],
    pub encsig: AdaptorSignature,
}

impl DeepView for CetSignature {
    type V = (Seq<u8>, Seq<u8>);

    open spec fn deep_view(&self) -> (Seq<u8>, Seq<u8>) {
        (self.txid@, self.encsig@)
    }
}

/// The second message of the handshake: a party's signatures on the commit
/// transaction, the refund transaction and the contract execution
/// transactions.
#[derive(Clone, Debug, PartialEq, Eq)]
pub struct Msg1 {
    pub commit: AdaptorSignature,
    pub cets: Vec<CetSignature>,
    pub refund: Signature,
}

/// What a [`Msg1`] holds.
pub struct Msg1View {
    pub commit: Seq<u8>,
    pub cets: Seq<(Seq<u8>, Seq<u8>)>,
    pub refund: Seq<u8>,
}

impl DeepView for Msg1 {
    type V = Msg1View;

    open spec fn deep_view(&self) -> Msg1View {
        Msg1View { commit: self.commit@, cets: self.cets.deep_view(), refund: self.refund@ }
    }
}

/// A message of the handshake.
#[derive(Clone, Debug)]
pub enum SetupMsg {
    Msg0(Msg0),
    Msg1(Msg1),
}

/// How far the handshake has come, once a party has sent its first message.
#[derive(Clone, Copy, Debug, PartialEq, Eq, Structural)]
pub enum SetupStage {
    /// We wait for the parameters of the other party.
    AwaitingParams,
    /// We have sent our signatures and wait for those of the other party.
    AwaitingSignatures,
    /// The handshake is over.
    Finished,
}

impl SetupStage {
    /// The stage after a message: the parameters of the other party come
    /// first, its signatures second, and nothing after that.
    pub open spec fn after(self, msg: SetupMsg) -> Result<SetupStage, Error> {
        match (self, msg) {
            (SetupStage::AwaitingParams, SetupMsg::Msg0(_)) => Ok(SetupStage::AwaitingSignatures),
            (SetupStage::AwaitingSignatures, SetupMsg::Msg1(_)) => Ok(SetupStage::Finished),
            _ => Err(Error::UnexpectedMessage),
        }
    }

    /// Takes a message of the other party: says which stage follows, or fails
    /// with `UnexpectedMessage` where the message does not fit the stage.
    pub fn advance(self, msg: &SetupMsg) -> (next: Result<SetupStage, Error>)
        ensures
            next == self.after(*msg),
    {
        match (self, msg) {
            (SetupStage::AwaitingParams, SetupMsg::Msg0(_)) => Ok(SetupStage::AwaitingSignatures),
            (SetupStage::AwaitingSignatures, SetupMsg::Msg1(_)) => Ok(SetupStage::Finished),
            _ => Err(Error::UnexpectedMessage),
        }
    }
}

/// The signatures of a bundle: one for each contract execution transaction,
/// in the order of the bundle, each with the identifier of its transaction.
pub open spec fn signatures_of(txs: CfdTransactionsView) -> Msg1View {
    Msg1View {
        commit: txs.commit.1,
        cets: Seq::new(txs.cets.len(), |i: int| (txid_of(txs.cets[i].tx), txs.cets[i].encsig)),
        refund: txs.refund.1,
    }
}

impl Msg1 {
    /// The message that carries the signatures of a bundle to the other
    /// party.
    pub fn from_transactions(txs: &CfdTransactions) -> (msg: Msg1)
        ensures
            msg.deep_view() == signatures_of(txs.deep_view()),
    {
        let ghost views = txs.deep_view().cets;
        let mut cets: Vec<CetSignature> = Vec::new();
        let mut i: usize = 0;
        while i < txs.cets.len()
            invariant
                i <= txs.cets@.len(),
                views == txs.deep_view().cets,
                cets@.len() == i,
                forall|j: int|
                    0 <= j < i ==> (#[trigger] cets@[j]).deep_view() == (
                        txid_of(views[j].tx),
                        views[j].encsig,
                    ),
            decreases txs.cets@.len() - i,
        {
            assert(views[i as int] == txs.cets@[i as int].deep_view());
            cets.push(
                CetSignature { txid: transaction_id(&txs.cets[i].tx), encsig: txs.cets[i].encsig },
            );
            i += 1;
        }
        let msg = Msg1 { commit: txs.commit.1, cets, refund: txs.refund.1 };
        assert(msg.deep_view().cets =~= signatures_of(txs.deep_view()).cets);
        msg
    }
}

/// The secret keys of one party for a contract.
pub struct SetupKeys {
    pub identity: SecretKey,
    pub revocation: SecretKey,
    pub publish: SecretKey,
}

/// A contract execution transaction with the adaptor signature of the other
/// party on it.
#[derive(Clone, Debug)]
pub struct CountersignedCet {
    pub tx: Transaction,
    pub encsig: AdaptorSignature,
    pub outcome_message: Vec<u8>,
}

/// What a [`CountersignedCet`] holds.
pub struct CountersignedCetView {
    pub tx: TransactionView,
    pub encsig: Seq<u8>,
    pub outcome_message: Seq<u8>,
}

impl DeepView for CountersignedCet {
    type V = CountersignedCetView;

    open spec fn deep_view(&self) -> CountersignedCetView {
        CountersignedCetView {
            tx: self.tx.deep_view(),
            encsig: self.encsig@,
            outcome_message: self.outcome_message@,
        }
    }
}

/// All that a party holds of a contract once the handshake is over: its own
/// secret keys, and the transactions with the signatures of the other party.
/// To use a transaction, the party adds its own signature.
pub struct FinalizedCfd {
    pub identity: SecretKey,
    pub revocation: SecretKey,
    pub publish: SecretKey,
    pub lock: Transaction,
    pub commit: (Transaction, AdaptorSignature),
    pub cets: Vec<CountersignedCet>,
    pub refund: (Transaction, Signature),
}

/// What a [`FinalizedCfd`] holds.
pub struct FinalizedCfdView {
    pub identity: Seq<u8>,
    pub revocation: Seq<u8>,
    pub publish: Seq<u8>,
    pub lock: TransactionView,
    pub commit: (TransactionView, Seq<u8>),
    pub cets: Seq<CountersignedCetView>,
    pub refund: (TransactionView, Seq<u8>),
}

impl DeepView for FinalizedCfd {
    type V = FinalizedCfdView;

    open spec fn deep_view(&self) -> FinalizedCfdView {
        FinalizedCfdView {
            identity: self.identity@,
            revocation: self.revocation@,
            publish: self.publish@,
            lock: self.lock.deep_view(),
            commit: (self.commit.0.deep_view(), self.commit.1@),
            cets: self.cets.deep_view(),
            refund: (self.refund.0.deep_view(), self.refund.1@),
        }
    }
}

/// What the signatures of the other party are checked against.
pub struct Counterparty {
    /// The identity key of the other party.
    pub identity_pk: Seq<u8>,
    /// Our own publish key: the other party encrypts its signature on the
    /// commit transaction to it.
    pub publish_pk: Seq<u8>,
    pub oracle_pk: Seq<u8>,
    pub lock_descriptor: DescriptorView,
    pub lock_amount: u64,
    pub commit_descriptor: DescriptorView,
}

/// The index of the first of our contract execution transactions from `start`
/// on that has the identifier.
pub open spec fn cet_position(cets: Seq<CetView>, txid: Seq<u8>, start: int) -> Option<int>
    decreases cets.len() - start,
{
    if start < 0 || start >= cets.len() {
        None
    } else if txid_of(cets[start].tx) == txid {
        Some(start)
    } else {
        cet_position(cets, txid, start + 1)
    }
}

/// Our contract execution transaction that a signature of the other party is
/// for, with that signature, once the signature has been checked: it must be
/// an adaptor signature of the other party on the transaction, encrypted to
/// the signature point of the outcome.
pub open spec fn countersigned_of(
    own: CfdTransactionsView,
    entry: (Seq<u8>, Seq<u8>),
    them: Counterparty,
) -> Result<CountersignedCetView, Error> {
    match cet_position(own.cets, entry.0, 0) {
        None => Err(Error::UnknownCet),
        Some(index) => {
            let cet = own.cets[index];
            match signature_point_of(them.oracle_pk, cet.nonce_pk, cet.outcome_message) {
                Err(e) => Err(e),
                Ok(point) => match spending_sighash_of(
                    cet.tx,
                    them.commit_descriptor,
                    own.commit.0.output[0].value,
                ) {
                    Some(sighash) if adaptor_valid(entry.1, sighash, them.identity_pk, point) => Ok(
                        CountersignedCetView {
                            tx: cet.tx,
                            encsig: entry.1,
                            outcome_message: cet.outcome_message,
                        },
                    ),
                    _ => Err(Error::ScriptSatisfaction),
                },
            }
        },
    }
}

/// Our contract execution transactions with the first `count` signatures of
/// the other party, in the order of the signatures; the error of the first
/// signature that fails.
pub open spec fn all_countersigned_of(
    own: CfdTransactionsView,
    entries: Seq<(Seq<u8>, Seq<u8>)>,
    them: Counterparty,
    count: int,
) -> Result<Seq<CountersignedCetView>, Error>
    decreases count,
{
    if count <= 0 {
        Ok(Seq::empty())
    } else {
        match all_countersigned_of(own, entries, them, count - 1) {
            Err(e) => Err(e),
            Ok(cets) => match countersigned_of(own, entries[count - 1], them) {
                Err(e) => Err(e),
                Ok(cet) => Ok(cets.push(cet)),
            },
        }
    }
}

/// Whether the signatures of the other party on the commit transaction and on
/// the refund transaction are valid.
pub open spec fn commit_and_refund_valid(
    own: CfdTransactionsView,
    theirs: Msg1View,
    them: Counterparty,
) -> bool {
    &&& own.commit.0.output.len() > 0
    &&& spending_sighash_of(own.commit.0, them.lock_descriptor, them.lock_amount) matches Some(
        sighash,
    ) && adaptor_valid(theirs.commit, sighash, them.identity_pk, them.publish_pk)
    &&& spending_sighash_of(
        own.refund.0,
        them.commit_descriptor,
        own.commit.0.output[0].value,
    ) matches Some(sighash) && ecdsa_valid(sighash, theirs.refund, them.identity_pk)
}

/// What a party holds at the end of the handshake. The signatures of the
/// other party are kept only where all of them are valid, and where there is
/// one for each of our contract execution transactions.
pub open spec fn finalized_of(
    keys: SetupKeys,
    own: CfdTransactionsView,
    theirs: Msg1View,
    them: Counterparty,
) -> Result<FinalizedCfdView, Error> {
    if !commit_and_refund_valid(own, theirs, them) {
        Err(Error::ScriptSatisfaction)
    } else if theirs.cets.len() != own.cets.len() {
        Err(Error::UnknownCet)
    } else {
        match all_countersigned_of(own, theirs.cets, them, theirs.cets.len() as int) {
            Err(e) => Err(e),
            Ok(cets) => Ok(
                FinalizedCfdView {
                    identity: keys.identity@,
                    revocation: keys.revocation@,
                    publish: keys.publish@,
                    lock: own.lock,
                    commit: (own.commit.0, theirs.commit),
                    cets,
                    refund: (own.refund.0, theirs.refund),
                },
            ),
        }
    }
}

/// Looks for the contract execution transaction with an identifier.
fn find_cet(cets: &Vec<Cet>, txid: &[u8; 32]) -> (index: Option<usize>)
    ensures
        match index {
            Some(i) => cet_position(cets.deep_view(), txid@, 0) == Some(i as int) && i
                < cets@.len(),
            None => cet_position(cets.deep_view(), txid@, 0) is None,
        },
{
    let ghost views = cets.deep_view();
    let mut i: usize = 0;
    while i < cets.len()
        invariant
            i <= cets@.len(),
            views == cets.deep_view(),
            cet_position(views, txid@, 0) == cet_position(views, txid@, i as int),
        decreases cets@.len() - i,
    {
        assert(views[i as int] == cets@[i as int].deep_view());
        let id = transaction_id(&cets[i].tx);
        if bytes_eq(id.as_slice(), txid.as_slice()) {
            return Some(i);
        }
        i += 1;
    }
    None
}

/// The other party, as its signatures are checked.
pub open spec fn counterparty_of(
    their_pk: PublicKey,
    own_publish_pk: PublicKey,
    oracle_pk: XOnlyPublicKey,
    lock_descriptor: DescriptorView,
    lock_amount: u64,
    commit_descriptor: DescriptorView,
) -> Counterparty {
    Counterparty {
        identity_pk: their_pk@,
        publish_pk: own_publish_pk@,
        oracle_pk: oracle_pk@,
        lock_descriptor,
        lock_amount,
        commit_descriptor,
    }
}

/// Checks one signature of the other party on a contract execution
/// transaction, and joins it with the transaction.
fn countersign(
    own: &CfdTransactions,
    entry: &CetSignature,
    their_pk: &PublicKey,
    oracle_pk: &XOnlyPublicKey,
    commit_descriptor: &Descriptor,
    them: Ghost<Counterparty>,
) -> (cet: Result<CountersignedCet, Error>)
    requires
        own.commit.0.output@.len() > 0,
        them@.identity_pk == their_pk@,
        them@.oracle_pk == oracle_pk@,
        them@.commit_descriptor == commit_descriptor.deep_view(),
    ensures
        match cet {
            Ok(c) => countersigned_of(own.deep_view(), entry.deep_view(), them@) == Ok::<
                CountersignedCetView,
                Error,
            >(c.deep_view()),
            Err(e) => countersigned_of(own.deep_view(), entry.deep_view(), them@) == Err::<
                CountersignedCetView,
                Error,
            >(e),
        },
{
    let index = match find_cet(&own.cets, &entry.txid) {
        Some(index) => index,
        None => {
            return Err(Error::UnknownCet);
        },
    };
    let cet = &own.cets[index];
    assert(own.deep_view().cets[index as int] == cet.deep_view());
    assert(own.deep_view().commit.0.output[0].value == own.commit.0.output@[0].value);
    let point = match compute_signature_point(
        oracle_pk,
        &cet.nonce_pk,
        cet.outcome_message.as_slice(),
    ) {
        Ok(point) => point,
        Err(e) => {
            return Err(e);
        },
    };
    let valid = match spending_tx_sighash(&cet.tx, commit_descriptor, own.commit.0.output[0].value) {
        Some(sighash) => verify_adaptor(&entry.encsig, &sighash, their_pk, &point),
        None => false,
    };
    if valid {
        Ok(
            CountersignedCet {
                tx: cet.tx.clone_transaction(),
                encsig: entry.encsig,
                outcome_message: copy_bytes(cet.outcome_message.as_slice()),
            },
        )
    } else {
        Err(Error::ScriptSatisfaction)
    }
}

/// Once a signature fails, the list fails with the same error however many
/// signatures follow.
proof fn lemma_first_invalid(
    own: CfdTransactionsView,
    entries: Seq<(Seq<u8>, Seq<u8>)>,
    them: Counterparty,
    count: int,
    more: int,
)
    requires
        0 <= count <= more,
        all_countersigned_of(own, entries, them, count) is Err,
    ensures
        all_countersigned_of(own, entries, them, more) == all_countersigned_of(
            own,
            entries,
            them,
            count,
        ),
    decreases more - count,
{
    if count < more {
        lemma_first_invalid(own, entries, them, count, more - 1);
    }
}

/// Ends the handshake: checks the signatures of the other party against our
/// own transactions and keeps them with the transactions.
///
/// Fails with `ScriptSatisfaction` where a signature of the other party is not
/// valid; with `UnknownCet` where there is not one signature for each of our
/// contract execution transactions, or a signature is for a transaction that
/// is not ours; and as [`compute_signature_point`] does.
#[verifier::loop_isolation(false)]
pub fn finalize_setup(
    keys: SetupKeys,
    own: CfdTransactions,
    theirs: Msg1,
    their_pk: &PublicKey,
    own_publish_pk: &PublicKey,
    oracle_pk: &XOnlyPublicKey,
    lock_descriptor: &Descriptor,
    lock_amount: u64,
    commit_descriptor: &Descriptor,
) -> (finalized: Result<FinalizedCfd, Error>)
    ensures
        match finalized {
            Ok(f) => finalized_of(
                keys,
                own.deep_view(),
                theirs.deep_view(),
                counterparty_of(
                    *their_pk,
                    *own_publish_pk,
                    *oracle_pk,
                    lock_descriptor.deep_view(),
                    lock_amount,
                    commit_descriptor.deep_view(),
                ),
            ) == Ok::<FinalizedCfdView, Error>(f.deep_view()),
            Err(e) => finalized_of(
                keys,
                own.deep_view(),
                theirs.deep_view(),
                counterparty_of(
                    *their_pk,
                    *own_publish_pk,
                    *oracle_pk,
                    lock_descriptor.deep_view(),
                    lock_amount,
                    commit_descriptor.deep_view(),
                ),
            ) == Err::<FinalizedCfdView, Error>(e),
        },
{
    let ghost them = counterparty_of(
        *their_pk,
        *own_publish_pk,
        *oracle_pk,
        lock_descriptor.deep_view(),
        lock_amount,
        commit_descriptor.deep_view(),
    );
    if own.commit.0.output.len() == 0 {
        return Err(Error::ScriptSatisfaction);
    }
    let commit_amount = own.commit.0.output[0].value;
    assert(own.deep_view().commit.0.output[0].value == commit_amount);
    let commit_valid = match spending_tx_sighash(&own.commit.0, lock_descriptor, lock_amount) {
        Some(sighash) => verify_adaptor(&theirs.commit, &sighash, their_pk, own_publish_pk),
        None => false,
    };
    let refund_valid = match spending_tx_sighash(&own.refund.0, commit_descriptor, commit_amount) {
        Some(sighash) => verify(&theirs.refund, &sighash, their_pk),
        None => false,
    };
    if !commit_valid || !refund_valid {
        return Err(Error::ScriptSatisfaction);
    }
    if theirs.cets.len() != own.cets.len() {
        return Err(Error::UnknownCet);
    }
    let ghost entries = theirs.deep_view().cets;
    let mut cets: Vec<CountersignedCet> = Vec::new();
    assert(cets.deep_view() =~= Seq::empty());
    let mut i: usize = 0;
    while i < theirs.cets.len()
        invariant
            i <= theirs.cets@.len(),
            all_countersigned_of(own.deep_view(), entries, them, i as int) == Ok::<
                Seq<CountersignedCetView>,
                Error,
            >(cets.deep_view()),
        decreases theirs.cets@.len() - i,
    {
        assert(entries[i as int] == theirs.cets@[i as int].deep_view());
        let ghost before = cets.deep_view();
        match countersign(
            &own,
            &theirs.cets[i],
            their_pk,
            oracle_pk,
            commit_descriptor,
            Ghost(them),
        ) {
            Ok(cet) => {
                cets.push(cet);
                assert(cets.deep_view() =~= before.push(cet.deep_view()));
            },
            Err(e) => {
                proof {
                    lemma_first_invalid(
                        own.deep_view(),
                        entries,
                        them,
                        i + 1,
                        entries.len() as int,
                    );
                }
                return Err(e);
            },
        }
        i += 1;
    }
    let CfdTransactions { lock, commit, refund, cets: _ } = own;
    Ok(
        FinalizedCfd {
            identity: keys.identity,
            revocation: keys.revocation,
            publish: keys.publish,
            lock,
            commit: (commit.0, theirs.commit),
            cets,
            refund: (refund.0, theirs.refund),
        },
    )
}

} // verus!
