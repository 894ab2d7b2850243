//! How the fee of a settlement is taken out of what the two parties are paid.

use vstd::prelude::*;
use crate::error::Error;

verus! {

/// The fee of the commit transaction in satoshi: the virtual size of the
/// signed transaction, with room for signatures of any length.
pub const COMMIT_TX_FEE: u64 = 150;

/// The fee of a refund or contract execution transaction in satoshi.
pub const SETTLEMENT_TX_FEE: u64 = 208;

/// The fee of a punish transaction in satoshi.
pub const PUNISH_TX_FEE: u64 = 222;

/// What the two outputs of a settlement pay for together: the settlement
/// transaction itself, and the commit transaction before it.
pub const SETTLEMENT_COST: u64 = COMMIT_TX_FEE + SETTLEMENT_TX_FEE;

/// Whether a party can pay its half of the fee and keep an output above the
/// dust limit.
pub open spec fn pays_half(amount: u64, fee: u64, dust_limit: u64) -> bool {
    amount >= fee / 2 && amount - fee / 2 > dust_limit
}

/// What is left of a fee after an amount has gone towards it.
pub open spec fn remainder(fee: u64, paid: u64) -> u64 {
    if paid >= fee {
        0
    } else {
        (fee - paid) as u64
    }
}

/// The two amounts of a payout after the fee: each party pays half. Where one
/// party cannot pay its half and keep more than dust, it is paid nothing, what
/// it had goes towards the fee, and the other party pays the rest. Where
/// neither can, or the other party cannot pay the rest, the payout is refused.
pub open spec fn after_fee(
    maker_amount: u64,
    taker_amount: u64,
    fee: u64,
    maker_dust: u64,
    taker_dust: u64,
) -> Result<(u64, u64), Error> {
    let maker_pays = pays_half(maker_amount, fee, maker_dust);
    let taker_pays = pays_half(taker_amount, fee, taker_dust);
    if maker_pays && taker_pays {
        Ok(((maker_amount - fee / 2) as u64, (taker_amount - fee / 2) as u64))
    } else if taker_pays {
        if taker_amount >= remainder(fee, maker_amount) {
            Ok((0, (taker_amount - remainder(fee, maker_amount)) as u64))
        } else {
            Err(Error::FeePolicyViolation)
        }
    } else if maker_pays {
        if maker_amount >= remainder(fee, taker_amount) {
            Ok(((maker_amount - remainder(fee, taker_amount)) as u64, 0))
        } else {
            Err(Error::FeePolicyViolation)
        }
    } else {
        Err(Error::FeePolicyViolation)
    }
}

fn can_pay_half(amount: u64, fee: u64, dust_limit: u64) -> (answer: bool)
    ensures
        answer == pays_half(amount, fee, dust_limit),
{
    amount >= fee / 2 && amount - fee / 2 > dust_limit
}

fn rest_of(fee: u64, paid: u64) -> (rest: u64)
    ensures
        rest == remainder(fee, paid),
{
    if paid >= fee {
        0
    } else {
        fee - paid
    }
}

/// Takes the fee out of the two amounts of a payout.
pub fn with_updated_fee(
    maker_amount: u64,
    taker_amount: u64,
    fee: u64,
    maker_dust: u64,
    taker_dust: u64,
) -> (amounts: Result<(u64, u64), Error>)
    ensures
        amounts == after_fee(maker_amount, taker_amount, fee, maker_dust, taker_dust),
{
    let maker_pays = can_pay_half(maker_amount, fee, maker_dust);
    let taker_pays = can_pay_half(taker_amount, fee, taker_dust);
    if maker_pays && taker_pays {
        Ok((maker_amount - fee / 2, taker_amount - fee / 2))
    } else if taker_pays {
        let rest = rest_of(fee, maker_amount);
        if taker_amount >= rest {
            Ok((0, taker_amount - rest))
        } else {
            Err(Error::FeePolicyViolation)
        }
    } else if maker_pays {
        let rest = rest_of(fee, taker_amount);
        if maker_amount >= rest {
            Ok((maker_amount - rest, 0))
        } else {
            Err(Error::FeePolicyViolation)
        }
    } else {
        Err(Error::FeePolicyViolation)
    }
}

/// Whether an amount makes an output: it is not zero and not below the dust
/// limit of its script.
pub open spec fn is_paid(amount: u64, dust_limit: u64) -> bool {
    amount > 0 && amount >= dust_limit
}

/// What the outputs for two amounts hold together, outputs below the dust
/// limit left out.
pub open spec fn paid_total(amounts: (u64, u64), maker_dust: u64, taker_dust: u64) -> int {
    (if is_paid(amounts.0, maker_dust) {
        amounts.0 as int
    } else {
        0
    }) + (if is_paid(amounts.1, taker_dust) {
        amounts.1 as int
    } else {
        0
    })
}

/// The fee is paid in full: after an even fee has been taken out, the two
/// amounts hold together no more than they held before, less the fee.
pub proof fn fee_is_paid(
    maker_amount: u64,
    taker_amount: u64,
    fee: u64,
    maker_dust: u64,
    taker_dust: u64,
)
    requires
        fee % 2 == 0,
    ensures
        after_fee(maker_amount, taker_amount, fee, maker_dust, taker_dust) matches Ok(amounts)
            ==> amounts.0 + amounts.1 + fee <= maker_amount + taker_amount && paid_total(
            amounts,
            maker_dust,
            taker_dust,
        ) + fee <= maker_amount + taker_amount,
{
}

} // verus!
