//! What the two parties agree on before they build the transactions of a
//! contract.

use vstd::prelude::*;
use crate::bytes::copy_bytes;
use crate::chain::transaction::{OutPoint, OutPointView};
use crate::crypto::keys::{PublicKey, XOnlyPublicKey};

verus! {

/// Where a party is paid: the script of its address.
#[derive(Clone, Debug, PartialEq, Eq)]
pub struct Address {
    pub script_pubkey: Vec<u8>,
}

impl DeepView for Address {
    type V = Seq<u8>;

    open spec fn deep_view(&self) -> Seq<u8> {
        self.script_pubkey@
    }
}

impl Address {
    /// A copy of the address.
    pub fn duplicate(&self) -> (copy: Address)
        ensures
            copy.deep_view() == self.deep_view(),
    {
        Address { script_pubkey: copy_bytes(self.script_pubkey.as_slice()) }
    }
}

/// An output that a party spends into the lock transaction, with the amount
/// that it holds in satoshi.
#[derive(Clone, Copy, Debug)]
pub struct FundingInput {
    pub outpoint: OutPoint,
    pub amount: u64,
}

/// What a [`FundingInput`] holds.
pub struct FundingInputView {
    pub outpoint: OutPointView,
    pub amount: u64,
}

impl DeepView for FundingInput {
    type V = FundingInputView;

    open spec fn deep_view(&self) -> FundingInputView {
        FundingInputView { outpoint: self.outpoint.deep_view(), amount: self.amount }
    }
}

/// What one party brings to the lock transaction. The wallet makes it; the
/// protocol only reads it.
#[derive(Clone, Debug)]
pub struct PartyParams {
    pub identity_pk: PublicKey,
    pub funding_inputs: Vec<FundingInput>,
    /// Where the party is paid: its change from the lock transaction, and what
    /// it gets out of the contract.
    pub change_address: Address,
    /// What the party gets back from its funding inputs, in satoshi.
    pub change_amount: u64,
    /// What the party locks up in the contract, in satoshi.
    pub lock_amount: u64,
}

/// What a [`PartyParams`] holds.
pub struct PartyParamsView {
    pub identity_pk: PublicKey,
    pub funding_inputs: Seq<FundingInputView>,
    pub change_address: Seq<u8>,
    pub change_amount: u64,
    pub lock_amount: u64,
}

impl DeepView for PartyParams {
    type V = PartyParamsView;

    open spec fn deep_view(&self) -> PartyParamsView {
        PartyParamsView {
            identity_pk: self.identity_pk,
            funding_inputs: self.funding_inputs.deep_view(),
            change_address: self.change_address.deep_view(),
            change_amount: self.change_amount,
            lock_amount: self.lock_amount,
        }
    }
}

/// The keys of one party for one version of the contract. The secret
/// revocation key is handed over when the version is superseded; the secret
/// publish key leaks when the party publishes the commit transaction.
#[derive(Clone, Copy, Debug)]
pub struct PunishParams {
    pub revocation_pk: PublicKey,
    pub publish_pk: PublicKey,
}

/// The oracle's public key and the nonce key that it announced for an event.
#[derive(Clone, Copy, Debug)]
pub struct OracleParams {
    pub oracle_pk: XOnlyPublicKey,
    pub nonce_pk: XOnlyPublicKey,
}

/// One party of a contract that is locked already: its key, what it locked,
/// where it is paid, and its keys for the version that is being built.
#[derive(Clone, Debug)]
pub struct Party {
    pub identity_pk: PublicKey,
    pub lock_amount: u64,
    pub address: Address,
    pub punish: PunishParams,
}

/// What a [`Party`] holds.
pub struct PartyView {
    pub identity_pk: PublicKey,
    pub lock_amount: u64,
    pub address: Seq<u8>,
    pub punish: PunishParams,
}

impl DeepView for Party {
    type V = PartyView;

    open spec fn deep_view(&self) -> PartyView {
        PartyView {
            identity_pk: self.identity_pk,
            lock_amount: self.lock_amount,
            address: self.address.deep_view(),
            punish: self.punish,
        }
    }
}

/// How the locked amount is split for one outcome of the event.
#[derive(Clone, Debug)]
pub struct Payout {
    pub outcome_message: Vec<u8>,
    pub nonce_pk: XOnlyPublicKey,
    /// What the maker is paid, in satoshi.
    pub maker_amount: u64,
    /// What the taker is paid, in satoshi.
    pub taker_amount: u64,
}

/// What a [`Payout`] holds.
pub struct PayoutView {
    pub outcome_message: Seq<u8>,
    pub nonce_pk: Seq<u8>,
    pub maker_amount: u64,
    pub taker_amount: u64,
}

impl DeepView for Payout {
    type V = PayoutView;

    open spec fn deep_view(&self) -> PayoutView {
        PayoutView {
            outcome_message: self.outcome_message@,
            nonce_pk: self.nonce_pk@,
            maker_amount: self.maker_amount,
            taker_amount: self.taker_amount,
        }
    }
}

impl Payout {
    /// The split for an outcome.
    pub fn new(
        outcome_message: Vec<u8>,
        nonce_pk: XOnlyPublicKey,
        maker_amount: u64,
        taker_amount: u64,
    ) -> (payout: Payout)
        ensures
            payout.deep_view() == (PayoutView {
                outcome_message: outcome_message@,
                nonce_pk: nonce_pk@,
                maker_amount,
                taker_amount,
            }),
    {
        Payout { outcome_message, nonce_pk, maker_amount, taker_amount }
    }
}

} // verus!
