//! Transaction graph and adaptor-signature protocol of a two-party contract for
//! difference that settles on chain through a discreet log contract.
//!
//! Two parties lock funds in an output that both must sign for. A commit
//! transaction spends it into an output that either both settle, by a refund
//! or by the transaction of the outcome that an oracle attests to, or one of
//! them sweeps, once the other has published a version of the contract that
//! was superseded.

pub mod bytes;
pub mod chain;
pub mod contract;
pub mod crypto;
pub mod daemon;
pub mod error;
pub mod hex;

pub use chain::descriptor::{commit_descriptor, lock_descriptor};
pub use chain::fee::check_tx_fee;
pub use chain::finalize::{finalize_spend_transaction, spending_tx_sighash};
pub use contract::params::{OracleParams, PartyParams, Payout, PunishParams};
pub use contract::protocol::{create_cfd_transactions, renew_cfd_transactions, CfdTransactions};
pub use contract::punish::punish_transaction;
pub use crypto::oracle::compute_signature_point;
pub use error::Error;
