//! The ways in which building or validating a contract's transactions fails.

use vstd::prelude::*;

verus! {

/// Why an operation of the protocol was refused. Every failure is final for the
/// call that reports it: nothing is retried or repaired inside the library.
#[derive(Clone, Copy, Debug, PartialEq, Eq, Structural)]
pub enum Error {
    /// Key material is malformed, or two keys that must differ are equal.
    DegenerateKeys,
    /// An outcome message cannot be hashed: it is empty.
    InvalidMessageEncoding,
    /// The signatures at hand do not satisfy the spent descriptor.
    ScriptSatisfaction,
    /// A transaction under construction would not pay the fee that policy asks.
    FeePolicyViolation,
    /// A spending transaction pays less than one satoshi per virtual byte.
    BelowMinRelayFee,
    /// An output that is looked for is in none of the transactions at hand.
    MissingOutput,
    /// The observed transaction does not allow its output to be swept.
    NotPunishable,
    /// The secret key belongs to neither party of the contract.
    UnknownIdentity,
    /// The version of the contract has been superseded already.
    Superseded,
    /// A message arrived that the handshake does not expect at this point.
    UnexpectedMessage,
    /// A signature is for a contract execution transaction that is not ours.
    UnknownCet,
}

impl Error {
    /// A short description for logs.
    pub fn describe(&self) -> (text: &'static str)
        ensures
            text@ == Self::description(*self),
    {
        match self {
            Error::DegenerateKeys => "malformed or duplicate key material",
            Error::InvalidMessageEncoding => "outcome message cannot be hashed",
            Error::ScriptSatisfaction => "signatures do not satisfy the descriptor",
            Error::FeePolicyViolation => "transaction violates the fee policy",
            Error::BelowMinRelayFee => "min relay fee not met",
            Error::MissingOutput => "output not found among the transactions at hand",
            Error::NotPunishable => "transaction cannot be punished",
            Error::UnknownIdentity => "identity sk does not belong to taker or maker",
            Error::Superseded => "contract version has been superseded",
            Error::UnexpectedMessage => "unexpected message",
            Error::UnknownCet => "unknown CET",
        }
    }

    /// The text that [`Error::describe`] gives for each variant.
    pub open spec fn description(e: Error) -> Seq<char> {
        match e {
            Error::DegenerateKeys => "malformed or duplicate key material"@,
            Error::InvalidMessageEncoding => "outcome message cannot be hashed"@,
            Error::ScriptSatisfaction => "signatures do not satisfy the descriptor"@,
            Error::FeePolicyViolation => "transaction violates the fee policy"@,
            Error::BelowMinRelayFee => "min relay fee not met"@,
            Error::MissingOutput => "output not found among the transactions at hand"@,
            Error::NotPunishable => "transaction cannot be punished"@,
            Error::UnknownIdentity => "identity sk does not belong to taker or maker"@,
            Error::Superseded => "contract version has been superseded"@,
            Error::UnexpectedMessage => "unexpected message"@,
            Error::UnknownCet => "unknown CET"@,
        }
    }
}

} // verus!
