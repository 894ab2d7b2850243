//! The transactions of a contract: the lock transaction that funds it, the
//! commit transaction that spends the lock output, and the refund and contract
//! execution transactions that spend the commit output.
//!
//! None of them depends on a secret key, so both parties build the same
//! transactions from what they agreed on.

use vstd::prelude::*;
use crate::bytes::copy_bytes;
use crate::chain::fee::{check_fee, fee_covers, output_total, total_output};
use crate::chain::transaction::{
    dust_value, dust_value_of, transaction_weight, weight_of, OutPoint, OutPointView, Transaction,
    TransactionView, TxIn, TxInView, TxOut, TxOutView,
};
use crate::contract::params::{
    Address, FundingInput, FundingInputView, Party, PartyParams, PartyParamsView, PartyView,
    Payout, PayoutView,
};
use crate::contract::payout::{
    after_fee, is_paid, with_updated_fee, COMMIT_TX_FEE, SETTLEMENT_COST, SETTLEMENT_TX_FEE,
};
use crate::error::Error;

verus! {

/// The version of every transaction of the protocol.
pub const TX_VERSION: i32 = 2;

/// The sequence number of an input without a relative timelock.
pub const SEQUENCE_FINAL: u32 = 0xffff_ffff;

/// The number of blocks that a contract execution transaction waits after the
/// commit transaction.
pub const CET_TIMELOCK: u32 = 12;

/// An input that spends an outpoint, not signed yet.
pub open spec fn input_of(outpoint: OutPointView, sequence: u32) -> TxInView {
    TxInView { previous_output: outpoint, sequence, witness: Seq::empty() }
}

/// An input that spends an outpoint, not signed yet.
pub fn spending_input(outpoint: OutPoint, sequence: u32) -> (input: TxIn)
    ensures
        input.deep_view() == input_of(outpoint.deep_view(), sequence),
{
    let input = TxIn { previous_output: outpoint, sequence, witness: Vec::new() };
    assert(input.witness.deep_view() =~= Seq::empty());
    input
}

/// An output of a value to a script.
pub fn paying_output(value: u64, script_pubkey: &Vec<u8>) -> (output: TxOut)
    ensures
        output.deep_view() == (TxOutView { value, script_pubkey: script_pubkey@ }),
{
    TxOut { value, script_pubkey: copy_bytes(script_pubkey.as_slice()) }
}

/// A transaction of the protocol with the given inputs and outputs.
pub fn transaction_of(input: Vec<TxIn>, output: Vec<TxOut>) -> (tx: Transaction)
    ensures
        tx.deep_view() == (TransactionView {
            version: TX_VERSION,
            lock_time: 0,
            input: input.deep_view(),
            output: output.deep_view(),
        }),
{
    Transaction { version: TX_VERSION, lock_time: 0, input, output }
}

/// The inputs of the lock transaction that spend a party's funding outputs.
pub open spec fn funding_of(inputs: Seq<FundingInputView>) -> Seq<TxInView> {
    Seq::new(inputs.len(), |i: int| input_of(inputs[i].outpoint, SEQUENCE_FINAL))
}

/// What a party's funding outputs hold together.
pub open spec fn funding_total(inputs: Seq<FundingInputView>) -> int
    decreases inputs.len(),
{
    if inputs.len() == 0 {
        0
    } else {
        funding_total(inputs.drop_last()) + inputs.last().amount
    }
}

/// The output of an amount to a script, left out where the amount is zero or
/// below the dust limit of the script.
pub open spec fn paid_output(amount: u64, script_pubkey: Seq<u8>) -> Seq<TxOutView> {
    if is_paid(amount, dust_value_of(script_pubkey)) {
        seq![TxOutView { value: amount, script_pubkey }]
    } else {
        Seq::empty()
    }
}

/// The lock transaction before its fee is checked: the maker's funding inputs,
/// then the taker's; the lock output, then the maker's change, then the
/// taker's.
pub open spec fn lock_draft(maker: PartyParamsView, taker: PartyParamsView, lock_script: Seq<u8>)
    -> TransactionView {
    TransactionView {
        version: TX_VERSION,
        lock_time: 0,
        input: funding_of(maker.funding_inputs) + funding_of(taker.funding_inputs),
        output: seq![
            TxOutView {
                value: (maker.lock_amount + taker.lock_amount) as u64,
                script_pubkey: lock_script,
            },
        ] + paid_output(maker.change_amount, maker.change_address) + paid_output(
            taker.change_amount,
            taker.change_address,
        ),
    }
}

/// The lock transaction. It is refused where the two lock amounts exceed what
/// an output can hold, or where the funding inputs do not cover the outputs
/// and a fee of one satoshi per virtual byte.
pub open spec fn lock_transaction_of(
    maker: PartyParamsView,
    taker: PartyParamsView,
    lock_script: Seq<u8>,
) -> Result<TransactionView, Error> {
    let tx = lock_draft(maker, taker, lock_script);
    if maker.lock_amount + taker.lock_amount > u64::MAX {
        Err(Error::FeePolicyViolation)
    } else if !fee_covers(
        funding_total(maker.funding_inputs) + funding_total(taker.funding_inputs) - output_total(
            tx.output,
        ),
        weight_of(tx),
    ) {
        Err(Error::FeePolicyViolation)
    } else {
        Ok(tx)
    }
}

/// Appends the inputs that spend a party's funding outputs, and returns what
/// those outputs hold together.
fn add_funding(input: &mut Vec<TxIn>, funding: &Vec<FundingInput>) -> (total: u128)
    ensures
        final(input).deep_view() == old(input).deep_view() + funding_of(funding.deep_view()),
        total == funding_total(funding.deep_view()),
        total <= funding@.len() * 0xffff_ffff_ffff_ffff,
{
    let ghost before = input.deep_view();
    let ghost views = funding.deep_view();
    let mut total: u128 = 0;
    let mut i: usize = 0;
    while i < funding.len()
        invariant
            i <= funding@.len(),
            views == funding.deep_view(),
            input.deep_view() =~= before + funding_of(views.take(i as int)),
            total == funding_total(views.take(i as int)),
            total <= i * 0xffff_ffff_ffff_ffff,
        decreases funding@.len() - i,
    {
        proof {
            assert(views.take(i + 1).drop_last() =~= views.take(i as int));
            assert(views.take(i + 1).last() == funding@[i as int].deep_view());
            assert((i + 1) * 0xffff_ffff_ffff_ffff == i * 0xffff_ffff_ffff_ffff
                + 0xffff_ffff_ffff_ffff) by (nonlinear_arith);
            assert(i * 0xffff_ffff_ffff_ffff <= 0xffff_ffff_ffff_ffff * 0xffff_ffff_ffff_ffff)
                by (nonlinear_arith)
                requires
                    i <= 0xffff_ffff_ffff_ffff,
            ;
        }
        let ghost prior = input.deep_view();
        let next = spending_input(funding[i].outpoint, SEQUENCE_FINAL);
        input.push(next);
        proof {
            assert(input.deep_view() =~= prior.push(next.deep_view()));
            assert(funding_of(views.take(i + 1)) =~= funding_of(views.take(i as int)).push(
                next.deep_view(),
            ));
        }
        total = total + funding[i].amount as u128;
        i += 1;
    }
    assert(views.take(i as int) =~= views);
    total
}

/// Appends the output of an amount to a script, unless the amount is zero or
/// below the dust limit of the script.
fn add_paid_output(output: &mut Vec<TxOut>, amount: u64, script_pubkey: &Vec<u8>)
    ensures
        final(output).deep_view() == old(output).deep_view() + paid_output(
            amount,
            script_pubkey@,
        ),
{
    let ghost before = output.deep_view();
    if amount > 0 && amount >= dust_value(script_pubkey) {
        let next = paying_output(amount, script_pubkey);
        output.push(next);
        assert(output.deep_view() =~= before + seq![next.deep_view()]);
    } else {
        assert(output.deep_view() =~= before + Seq::empty());
    }
}

/// The verdict of the fee check, as an error of construction.
fn policy_verdict(input_amount: u128, output_amount: u128, weight: usize) -> (ok: bool)
    ensures
        ok == fee_covers(input_amount - output_amount, weight as nat),
{
    check_fee(input_amount, output_amount, weight).is_ok()
}

/// The verdict of the fee check on a transaction that two parties fund.
fn funding_verdict(maker_total: u128, taker_total: u128, output_amount: u128, weight: usize) -> (ok:
    bool)
    ensures
        ok == fee_covers(maker_total + taker_total - output_amount, weight as nat),
{
    if maker_total >= output_amount {
        let surplus = maker_total - output_amount;
        if surplus > 0xffff_ffff_ffff_ffff || taker_total > 0xffff_ffff_ffff_ffff {
            true
        } else {
            policy_verdict(surplus + taker_total, 0, weight)
        }
    } else {
        policy_verdict(taker_total, output_amount - maker_total, weight)
    }
}

/// Builds the lock transaction from what the two parties bring: their funding
/// inputs, an output of both lock amounts to the lock script, and their
/// change.
pub fn lock_transaction(maker: &PartyParams, taker: &PartyParams, lock_script: &Vec<u8>) -> (tx:
    Result<Transaction, Error>)
    ensures
        match tx {
            Ok(t) => lock_transaction_of(maker.deep_view(), taker.deep_view(), lock_script@)
                == Ok::<TransactionView, Error>(t.deep_view()),
            Err(e) => lock_transaction_of(maker.deep_view(), taker.deep_view(), lock_script@)
                == Err::<TransactionView, Error>(e),
        },
{
    if maker.lock_amount > u64::MAX - taker.lock_amount {
        return Err(Error::FeePolicyViolation);
    }
    let mut input: Vec<TxIn> = Vec::new();
    assert(input.deep_view() =~= Seq::empty());
    let maker_total = add_funding(&mut input, &maker.funding_inputs);
    let taker_total = add_funding(&mut input, &taker.funding_inputs);
    let mut output: Vec<TxOut> = Vec::new();
    let lock_output = paying_output(maker.lock_amount + taker.lock_amount, lock_script);
    output.push(lock_output);
    assert(output.deep_view() =~= seq![lock_output.deep_view()]);
    add_paid_output(&mut output, maker.change_amount, &maker.change_address.script_pubkey);
    add_paid_output(&mut output, taker.change_amount, &taker.change_address.script_pubkey);
    let tx = transaction_of(input, output);
    proof {
        assert(tx.deep_view().input =~= funding_of(maker.deep_view().funding_inputs) + funding_of(
            taker.deep_view().funding_inputs,
        ));
        assert(tx.deep_view() == lock_draft(maker.deep_view(), taker.deep_view(), lock_script@));
    }
    if funding_verdict(maker_total, taker_total, total_output(&tx), transaction_weight(&tx)) {
        Ok(tx)
    } else {
        Err(Error::FeePolicyViolation)
    }
}

/// The commit transaction: it spends the lock output into one output to the
/// commit script, of the locked amount less the fee.
pub open spec fn commit_draft(lock_outpoint: OutPointView, lock_amount: u64, commit_script: Seq<u8>)
    -> TransactionView {
    TransactionView {
        version: TX_VERSION,
        lock_time: 0,
        input: seq![input_of(lock_outpoint, SEQUENCE_FINAL)],
        output: seq![
            TxOutView {
                value: (lock_amount - COMMIT_TX_FEE) as u64,
                script_pubkey: commit_script,
            },
        ],
    }
}

/// The commit transaction, refused where the locked amount does not cover the
/// fee or the fee does not cover the virtual size.
pub open spec fn commit_transaction_of(
    lock_outpoint: OutPointView,
    lock_amount: u64,
    commit_script: Seq<u8>,
) -> Result<TransactionView, Error> {
    let tx = commit_draft(lock_outpoint, lock_amount, commit_script);
    if lock_amount < COMMIT_TX_FEE {
        Err(Error::FeePolicyViolation)
    } else if !fee_covers(COMMIT_TX_FEE as int, weight_of(tx)) {
        Err(Error::FeePolicyViolation)
    } else {
        Ok(tx)
    }
}

/// Builds the commit transaction.
pub fn commit_transaction(lock_outpoint: OutPoint, lock_amount: u64, commit_script: &Vec<u8>) -> (tx:
    Result<Transaction, Error>)
    ensures
        match tx {
            Ok(t) => commit_transaction_of(lock_outpoint.deep_view(), lock_amount, commit_script@)
                == Ok::<TransactionView, Error>(t.deep_view()),
            Err(e) => commit_transaction_of(lock_outpoint.deep_view(), lock_amount, commit_script@)
                == Err::<TransactionView, Error>(e),
        },
{
    if lock_amount < COMMIT_TX_FEE {
        return Err(Error::FeePolicyViolation);
    }
    let spend = spending_input(lock_outpoint, SEQUENCE_FINAL);
    let input = vec![spend];
    let pay = paying_output(lock_amount - COMMIT_TX_FEE, commit_script);
    let output = vec![pay];
    proof {
        assert(input.deep_view() =~= seq![spend.deep_view()]);
        assert(output.deep_view() =~= seq![pay.deep_view()]);
    }
    let tx = transaction_of(input, output);
    if policy_verdict(COMMIT_TX_FEE as u128, 0, transaction_weight(&tx)) {
        Ok(tx)
    } else {
        Err(Error::FeePolicyViolation)
    }
}

/// A transaction that spends the commit output to the two parties, before its
/// fee is checked: the maker's output, then the taker's, each left out where
/// it is zero or dust.
pub open spec fn settlement_draft(
    commit_outpoint: OutPointView,
    sequence: u32,
    amounts: (u64, u64),
    maker_address: Seq<u8>,
    taker_address: Seq<u8>,
) -> TransactionView {
    TransactionView {
        version: TX_VERSION,
        lock_time: 0,
        input: seq![input_of(commit_outpoint, sequence)],
        output: paid_output(amounts.0, maker_address) + paid_output(amounts.1, taker_address),
    }
}

/// A transaction that spends the commit output to the two parties. It is
/// refused where it pays nobody, where the commit output does not cover what
/// it pays and the fee of a settlement, or where what is left as fee is less
/// than one satoshi per virtual byte.
pub open spec fn settlement_transaction_of(
    commit_outpoint: OutPointView,
    commit_amount: u64,
    sequence: u32,
    amounts: (u64, u64),
    maker_address: Seq<u8>,
    taker_address: Seq<u8>,
) -> Result<TransactionView, Error> {
    let tx = settlement_draft(commit_outpoint, sequence, amounts, maker_address, taker_address);
    if tx.output.len() == 0 {
        Err(Error::FeePolicyViolation)
    } else if output_total(tx.output) + SETTLEMENT_TX_FEE > commit_amount {
        Err(Error::FeePolicyViolation)
    } else if !fee_covers(commit_amount - output_total(tx.output), weight_of(tx)) {
        Err(Error::FeePolicyViolation)
    } else {
        Ok(tx)
    }
}

/// Builds a transaction that spends the commit output to the two parties.
pub fn settlement_transaction(
    commit_outpoint: OutPoint,
    commit_amount: u64,
    sequence: u32,
    amounts: (u64, u64),
    maker_address: &Address,
    taker_address: &Address,
) -> (tx: Result<Transaction, Error>)
    ensures
        match tx {
            Ok(t) => settlement_transaction_of(
                commit_outpoint.deep_view(),
                commit_amount,
                sequence,
                amounts,
                maker_address.deep_view(),
                taker_address.deep_view(),
            ) == Ok::<TransactionView, Error>(t.deep_view()),
            Err(e) => settlement_transaction_of(
                commit_outpoint.deep_view(),
                commit_amount,
                sequence,
                amounts,
                maker_address.deep_view(),
                taker_address.deep_view(),
            ) == Err::<TransactionView, Error>(e),
        },
{
    let spend = spending_input(commit_outpoint, sequence);
    let input = vec![spend];
    assert(input.deep_view() =~= seq![spend.deep_view()]);
    let mut output: Vec<TxOut> = Vec::new();
    assert(output.deep_view() =~= Seq::empty());
    add_paid_output(&mut output, amounts.0, &maker_address.script_pubkey);
    add_paid_output(&mut output, amounts.1, &taker_address.script_pubkey);
    assert(output.deep_view() =~= paid_output(amounts.0, maker_address.deep_view()) + paid_output(
        amounts.1,
        taker_address.deep_view(),
    ));
    if output.len() == 0 {
        return Err(Error::FeePolicyViolation);
    }
    let tx = transaction_of(input, output);
    let paid = total_output(&tx);
    if paid > commit_amount as u128 || commit_amount as u128 - paid < SETTLEMENT_TX_FEE as u128 {
        return Err(Error::FeePolicyViolation);
    }
    if policy_verdict(commit_amount as u128, paid, transaction_weight(&tx)) {
        Ok(tx)
    } else {
        Err(Error::FeePolicyViolation)
    }
}

/// The refund transaction: after the timelock, each party gets back what it
/// locked, less half of the cost of settling.
pub open spec fn refund_transaction_of(
    commit_outpoint: OutPointView,
    commit_amount: u64,
    refund_timelock: u32,
    maker: PartyView,
    taker: PartyView,
) -> Result<TransactionView, Error> {
    if maker.lock_amount < SETTLEMENT_COST / 2 || taker.lock_amount < SETTLEMENT_COST / 2 {
        Err(Error::FeePolicyViolation)
    } else {
        settlement_transaction_of(
            commit_outpoint,
            commit_amount,
            refund_timelock,
            (
                (maker.lock_amount - SETTLEMENT_COST / 2) as u64,
                (taker.lock_amount - SETTLEMENT_COST / 2) as u64,
            ),
            maker.address,
            taker.address,
        )
    }
}

/// Builds the refund transaction.
pub fn refund_transaction(
    commit_outpoint: OutPoint,
    commit_amount: u64,
    refund_timelock: u32,
    maker: &Party,
    taker: &Party,
) -> (tx: Result<Transaction, Error>)
    ensures
        match tx {
            Ok(t) => refund_transaction_of(
                commit_outpoint.deep_view(),
                commit_amount,
                refund_timelock,
                maker.deep_view(),
                taker.deep_view(),
            ) == Ok::<TransactionView, Error>(t.deep_view()),
            Err(e) => refund_transaction_of(
                commit_outpoint.deep_view(),
                commit_amount,
                refund_timelock,
                maker.deep_view(),
                taker.deep_view(),
            ) == Err::<TransactionView, Error>(e),
        },
{
    let half = SETTLEMENT_COST / 2;
    if maker.lock_amount < half || taker.lock_amount < half {
        return Err(Error::FeePolicyViolation);
    }
    settlement_transaction(
        commit_outpoint,
        commit_amount,
        refund_timelock,
        (maker.lock_amount - half, taker.lock_amount - half),
        &maker.address,
        &taker.address,
    )
}

/// The contract execution transaction of a payout: after its timelock, the
/// two parties are paid what the payout gives them, less the cost of
/// settling.
pub open spec fn cet_of(
    commit_outpoint: OutPointView,
    commit_amount: u64,
    payout: PayoutView,
    maker_address: Seq<u8>,
    taker_address: Seq<u8>,
) -> Result<TransactionView, Error> {
    match after_fee(
        payout.maker_amount,
        payout.taker_amount,
        SETTLEMENT_COST,
        dust_value_of(maker_address),
        dust_value_of(taker_address),
    ) {
        Err(e) => Err(e),
        Ok(amounts) => settlement_transaction_of(
            commit_outpoint,
            commit_amount,
            CET_TIMELOCK,
            amounts,
            maker_address,
            taker_address,
        ),
    }
}

/// Builds the contract execution transaction of a payout.
pub fn contract_execution_transaction(
    commit_outpoint: OutPoint,
    commit_amount: u64,
    payout: &Payout,
    maker_address: &Address,
    taker_address: &Address,
) -> (tx: Result<Transaction, Error>)
    ensures
        match tx {
            Ok(t) => cet_of(
                commit_outpoint.deep_view(),
                commit_amount,
                payout.deep_view(),
                maker_address.deep_view(),
                taker_address.deep_view(),
            ) == Ok::<TransactionView, Error>(t.deep_view()),
            Err(e) => cet_of(
                commit_outpoint.deep_view(),
                commit_amount,
                payout.deep_view(),
                maker_address.deep_view(),
                taker_address.deep_view(),
            ) == Err::<TransactionView, Error>(e),
        },
{
    let amounts = with_updated_fee(
        payout.maker_amount,
        payout.taker_amount,
        SETTLEMENT_COST,
        dust_value(&maker_address.script_pubkey),
        dust_value(&taker_address.script_pubkey),
    );
    match amounts {
        Err(e) => Err(e),
        Ok(amounts) => settlement_transaction(
            commit_outpoint,
            commit_amount,
            CET_TIMELOCK,
            amounts,
            maker_address,
            taker_address,
        ),
    }
}

} // verus!
