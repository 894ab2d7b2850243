//! The versions of a contract. Each renewal starts a new version with new
//! revocation and publish keys, and revokes the version before it: the other
//! party hands over the secret revocation key of the old version. Only a
//! revoked version can be punished.

use vstd::prelude::*;
use crate::chain::descriptor::{Descriptor, DescriptorView};
use crate::chain::transaction::{Transaction, TransactionView};
use crate::contract::params::{Address, PunishParams};
use crate::contract::punish::{punish_transaction, punish_transaction_of};
use crate::crypto::keys::{AdaptorSignature, SecretKey};
use crate::crypto::secp::public_key_of;
use crate::error::Error;

verus! {

/// One version of a contract, as seen by one party: the keys of the other
/// party for this version, and the other party's secret revocation key once
/// the version has been superseded.
pub struct ContractVersion {
    pub id: u64,
    pub punish_params: PunishParams,
    pub revoked: Option<SecretKey>,
}

impl ContractVersion {
    /// A revoked version holds the secret key of its revocation key.
    pub open spec fn wf(&self) -> bool {
        self.revoked matches Some(sk) ==> public_key_of(sk@) == Some(
            self.punish_params.revocation_pk@,
        )
    }

    /// The first version of a contract.
    pub fn first(punish_params: PunishParams) -> (version: ContractVersion)
        ensures
            version == (ContractVersion { id: 0, punish_params, revoked: None }),
            version.wf(),
    {
        ContractVersion { id: 0, punish_params, revoked: None }
    }

    /// Whether the version is the one in force.
    pub fn is_current(&self) -> (current: bool)
        ensures
            current == (self.revoked is None),
    {
        self.revoked.is_none()
    }

    /// A version with the keys of another one: the keys of a version are not
    /// to be used again.
    pub open spec fn reuses(&self, punish_params: PunishParams) -> bool {
        ||| punish_params.revocation_pk@ == self.punish_params.revocation_pk@
        ||| punish_params.revocation_pk@ == self.punish_params.publish_pk@
        ||| punish_params.publish_pk@ == self.punish_params.revocation_pk@
        ||| punish_params.publish_pk@ == self.punish_params.publish_pk@
    }

    /// What a renewal makes of the version in force: the version revoked, and
    /// the version after it.
    pub open spec fn renewed(
        &self,
        revocation_sk: SecretKey,
        punish_params: PunishParams,
    ) -> Result<(ContractVersion, ContractVersion), Error> {
        if self.revoked is Some || self.id == u64::MAX {
            Err(Error::Superseded)
        } else if public_key_of(revocation_sk@) != Some(self.punish_params.revocation_pk@)
            || self.reuses(punish_params) {
            Err(Error::DegenerateKeys)
        } else {
            Ok(
                (
                    ContractVersion {
                        id: self.id,
                        punish_params: self.punish_params,
                        revoked: Some(revocation_sk),
                    },
                    ContractVersion { id: (self.id + 1) as u64, punish_params, revoked: None },
                ),
            )
        }
    }

    /// Renews the contract: revokes this version with the secret revocation
    /// key that the other party handed over, and starts the next version with
    /// the other party's new keys. Fails with `Superseded` where this
    /// version is revoked already or is the last that can be numbered; and
    /// with `DegenerateKeys` where the secret key is not that of the
    /// revocation key, or the new version uses a key of this one again.
    pub fn renew(&self, revocation_sk: SecretKey, punish_params: PunishParams) -> (versions: Result<
        (ContractVersion, ContractVersion),
        Error,
    >)
        ensures
            versions == self.renewed(revocation_sk, punish_params),
            self.wf() ==> (versions matches Ok(v) ==> v.0.wf() && v.1.wf()),
    {
        if self.revoked.is_some() || self.id == u64::MAX {
            return Err(Error::Superseded);
        }
        let matches_key = match revocation_sk.public_key() {
            Some(pk) => pk.same(&self.punish_params.revocation_pk),
            None => false,
        };
        let reuses = punish_params.revocation_pk.same(&self.punish_params.revocation_pk)
            || punish_params.revocation_pk.same(&self.punish_params.publish_pk)
            || punish_params.publish_pk.same(&self.punish_params.revocation_pk)
            || punish_params.publish_pk.same(&self.punish_params.publish_pk);
        if !matches_key || reuses {
            return Err(Error::DegenerateKeys);
        }
        Ok(
            (
                ContractVersion {
                    id: self.id,
                    punish_params: self.punish_params,
                    revoked: Some(revocation_sk),
                },
                ContractVersion { id: self.id + 1, punish_params, revoked: None },
            ),
        )
    }

    /// The punish transaction for a published commit transaction of this
    /// version: there is none while the version is in force.
    pub open spec fn punishment_of(
        &self,
        commit_descriptor: DescriptorView,
        address: Seq<u8>,
        encsig: Seq<u8>,
        sk: Seq<u8>,
        published_commit_tx: TransactionView,
    ) -> Result<TransactionView, Error> {
        match self.revoked {
            None => Err(Error::NotPunishable),
            Some(revocation_sk) => punish_transaction_of(
                commit_descriptor,
                address,
                encsig,
                sk,
                revocation_sk@,
                self.punish_params.publish_pk@,
                published_commit_tx,
            ),
        }
    }

    /// Sweeps the output of a published commit transaction of this version.
    /// Fails with `NotPunishable` where the version is still in force;
    /// otherwise as [`punish_transaction`] does.
    pub fn punish(
        &self,
        commit_descriptor: &Descriptor,
        address: &Address,
        encsig: &AdaptorSignature,
        sk: &SecretKey,
        published_commit_tx: &Transaction,
    ) -> (tx: Result<Transaction, Error>)
        ensures
            match tx {
                Ok(t) => self.punishment_of(
                    commit_descriptor.deep_view(),
                    address.deep_view(),
                    encsig@,
                    sk@,
                    published_commit_tx.deep_view(),
                ) == Ok::<TransactionView, Error>(t.deep_view()),
                Err(e) => self.punishment_of(
                    commit_descriptor.deep_view(),
                    address.deep_view(),
                    encsig@,
                    sk@,
                    published_commit_tx.deep_view(),
                ) == Err::<TransactionView, Error>(e),
            },
            self.revoked is None ==> tx == Err::<Transaction, Error>(Error::NotPunishable),
    {
        match &self.revoked {
            None => Err(Error::NotPunishable),
            Some(revocation_sk) => punish_transaction(
                commit_descriptor,
                address,
                encsig,
                sk,
                revocation_sk,
                &self.punish_params.publish_pk,
                published_commit_tx,
            ),
        }
    }
}

} // verus!
