//! The fee floor: a transaction pays at least one satoshi for each virtual
//! byte, that is for each four units of weight.

use vstd::prelude::*;
use crate::bytes::bytes_eq;
use crate::chain::transaction::{
    transaction_id, transaction_weight, txid_of, weight_of, OutPoint, OutPointView, Transaction,
    TransactionView, TxInView, TxOutView,
};
use crate::error::Error;

verus! {

/// Whether a fee in satoshi is at least the virtual size of a transaction of
/// the given weight.
pub open spec fn fee_covers(fee: int, weight: nat) -> bool {
    4 * fee >= weight
}

/// The value of the output that an outpoint names: the output at its index in
/// the first of the transactions that has its identifier.
pub open spec fn spent_value(input_txs: Seq<TransactionView>, outpoint: OutPointView) -> Option<
    u64,
>
    decreases input_txs.len(),
{
    if input_txs.len() == 0 {
        None
    } else if txid_of(input_txs[0]) == outpoint.txid {
        if outpoint.vout < input_txs[0].output.len() {
            Some(input_txs[0].output[outpoint.vout as int].value)
        } else {
            None
        }
    } else {
        spent_value(input_txs.drop_first(), outpoint)
    }
}

/// The sum of the values that the inputs spend, or `None` where one of them
/// spends an output that is not among the transactions.
pub open spec fn input_total(input_txs: Seq<TransactionView>, inputs: Seq<TxInView>) -> Option<
    int,
>
    decreases inputs.len(),
{
    if inputs.len() == 0 {
        Some(0)
    } else {
        match (
            input_total(input_txs, inputs.drop_last()),
            spent_value(input_txs, inputs.last().previous_output),
        ) {
            (Some(total), Some(value)) => Some(total + value),
            _ => None,
        }
    }
}

/// The sum of the values of the outputs.
pub open spec fn output_total(outputs: Seq<TxOutView>) -> int
    decreases outputs.len(),
{
    if outputs.len() == 0 {
        0
    } else {
        output_total(outputs.drop_last()) + outputs.last().value
    }
}

/// The verdict on a fee: the amount that goes in less the amount that comes
/// out must cover the weight.
pub open spec fn fee_verdict(input_amount: int, output_amount: int, weight: nat) -> Result<
    (),
    Error,
> {
    if fee_covers(input_amount - output_amount, weight) {
        Ok(())
    } else {
        Err(Error::BelowMinRelayFee)
    }
}

/// The verdict on a spending transaction, given the transactions that it
/// spends from.
pub open spec fn fee_check(input_txs: Seq<TransactionView>, spend_tx: TransactionView) -> Result<
    (),
    Error,
> {
    match input_total(input_txs, spend_tx.input) {
        None => Err(Error::MissingOutput),
        Some(total) => fee_verdict(total, output_total(spend_tx.output), weight_of(spend_tx)),
    }
}

/// Checks that the amount going into a transaction exceeds the amount coming
/// out by at least a quarter of its weight.
pub fn check_fee(input_amount: u128, output_amount: u128, weight: usize) -> (verdict: Result<
    (),
    Error,
>)
    ensures
        verdict == fee_verdict(input_amount as int, output_amount as int, weight as nat),
{
    if input_amount < output_amount {
        return Err(Error::BelowMinRelayFee);
    }
    let fee = input_amount - output_amount;
    let floor = (weight as u128 + 3) / 4;
    if fee >= floor {
        Ok(())
    } else {
        Err(Error::BelowMinRelayFee)
    }
}

/// The sum of the values of the outputs of a transaction.
pub fn total_output(tx: &Transaction) -> (total: u128)
    ensures
        total == output_total(tx.deep_view().output),
        total <= tx.output@.len() * 0xffff_ffff_ffff_ffff,
{
    let ghost outputs = tx.deep_view().output;
    let mut total: u128 = 0;
    let mut i: usize = 0;
    while i < tx.output.len()
        invariant
            i <= tx.output@.len(),
            outputs == tx.deep_view().output,
            total == output_total(outputs.take(i as int)),
            total <= i * 0xffff_ffff_ffff_ffff,
        decreases tx.output@.len() - i,
    {
        proof {
            assert(outputs.take(i + 1).drop_last() =~= outputs.take(i as int));
            assert(outputs.take(i + 1).last().value == tx.output@[i as int].value);
            assert((i + 1) * 0xffff_ffff_ffff_ffff == i * 0xffff_ffff_ffff_ffff
                + 0xffff_ffff_ffff_ffff) by (nonlinear_arith);
            assert(i * 0xffff_ffff_ffff_ffff <= 0xffff_ffff_ffff_ffff * 0xffff_ffff_ffff_ffff)
                by (nonlinear_arith)
                requires
                    i <= 0xffff_ffff_ffff_ffff,
            ;
        }
        total = total + tx.output[i].value as u128;
        i += 1;
    }
    assert(outputs.take(i as int) =~= outputs);
    total
}

/// Looks up the value of the output that an outpoint names.
fn lookup_value(input_txs: &Vec<Transaction>, outpoint: &OutPoint) -> (value: Option<u64>)
    ensures
        value == spent_value(input_txs.deep_view(), outpoint.deep_view()),
{
    let ghost txs = input_txs.deep_view();
    assert(txs.skip(0) =~= txs);
    let mut k: usize = 0;
    while k < input_txs.len()
        invariant
            k <= input_txs@.len(),
            txs == input_txs.deep_view(),
            spent_value(txs, outpoint.deep_view()) == spent_value(
                txs.skip(k as int),
                outpoint.deep_view(),
            ),
        decreases input_txs@.len() - k,
    {
        let tx = &input_txs[k];
        let id = transaction_id(tx);
        proof {
            assert(txs.skip(k as int)[0] == tx.deep_view());
            assert(txs.skip(k as int).drop_first() =~= txs.skip(k + 1));
        }
        if bytes_eq(id.as_slice(), outpoint.txid.as_slice()) {
            let vout = outpoint.vout as usize;
            if vout < tx.output.len() {
                assert(tx.deep_view().output[vout as int].value == tx.output@[vout as int].value);
                return Some(tx.output[vout].value);
            } else {
                return None;
            }
        }
        k += 1;
    }
    None
}

/// Checks the fee of a spending transaction against the transactions that it
/// spends from. The value of each input is that of the output that it names,
/// in the first of the transactions with that identifier. The fee is what the
/// inputs hold more than the outputs; it is accepted where it is at least the
/// virtual size, a quarter of the weight.
pub fn check_tx_fee(input_txs: &Vec<Transaction>, spend_tx: &Transaction) -> (verdict: Result<
    (),
    Error,
>)
    ensures
        verdict == fee_check(input_txs.deep_view(), spend_tx.deep_view()),
{
    let ghost inputs = spend_tx.deep_view().input;
    let mut total: u128 = 0;
    let mut i: usize = 0;
    while i < spend_tx.input.len()
        invariant
            i <= spend_tx.input@.len(),
            inputs == spend_tx.deep_view().input,
            input_total(input_txs.deep_view(), inputs.take(i as int)) == Some(total as int),
            total <= i * 0xffff_ffff_ffff_ffff,
        decreases spend_tx.input@.len() - i,
    {
        proof {
            assert(inputs.take(i + 1).drop_last() =~= inputs.take(i as int));
            assert(inputs.take(i + 1).last().previous_output
                == spend_tx.input@[i as int].previous_output.deep_view());
            assert((i + 1) * 0xffff_ffff_ffff_ffff == i * 0xffff_ffff_ffff_ffff
                + 0xffff_ffff_ffff_ffff) by (nonlinear_arith);
            assert(i * 0xffff_ffff_ffff_ffff <= 0xffff_ffff_ffff_ffff * 0xffff_ffff_ffff_ffff)
                by (nonlinear_arith)
                requires
                    i <= 0xffff_ffff_ffff_ffff,
            ;
        }
        match lookup_value(input_txs, &spend_tx.input[i].previous_output) {
            Some(value) => {
                total = total + value as u128;
            },
            None => {
                proof {
                    lemma_missing_input(input_txs.deep_view(), inputs, i + 1);
                }
                return Err(Error::MissingOutput);
            },
        }
        i += 1;
    }
    assert(inputs.take(i as int) =~= inputs);
    check_fee(total, total_output(spend_tx), transaction_weight(spend_tx))
}

/// Once an input is missing, the total stays undefined however many inputs
/// follow.
proof fn lemma_missing_input(input_txs: Seq<TransactionView>, inputs: Seq<TxInView>, n: int)
    requires
        0 <= n <= inputs.len(),
        input_total(input_txs, inputs.take(n)) is None,
    ensures
        input_total(input_txs, inputs) is None,
    decreases inputs.len() - n,
{
    if n < inputs.len() {
        assert(inputs.take(n + 1).drop_last() =~= inputs.take(n));
        lemma_missing_input(input_txs, inputs, n + 1);
    } else {
        assert(inputs.take(n) =~= inputs);
    }
}

/// What two lists of outputs hold together is the sum of what each holds.
pub proof fn output_total_of_joined(first: Seq<TxOutView>, second: Seq<TxOutView>)
    ensures
        output_total(first + second) == output_total(first) + output_total(second),
    decreases second.len(),
{
    if second.len() == 0 {
        assert(first + second =~= first);
    } else {
        assert((first + second).drop_last() =~= first + second.drop_last());
        output_total_of_joined(first, second.drop_last());
    }
}

/// The fee floor: a fee of exactly a quarter of the weight is accepted, and no
/// fee below a quarter of the weight is.
pub proof fn fee_floor(input_amount: int, output_amount: int, weight: nat)
    ensures
        4 * (input_amount - output_amount) == weight ==> fee_verdict(
            input_amount,
            output_amount,
            weight,
        ) == Ok::<(), Error>(()),
        4 * (input_amount - output_amount) < weight ==> fee_verdict(
            input_amount,
            output_amount,
            weight,
        ) == Err::<(), Error>(Error::BelowMinRelayFee),
        4 * (input_amount - output_amount) >= weight ==> fee_verdict(
            input_amount,
            output_amount,
            weight,
        ) == Ok::<(), Error>(()),
{
}

} // verus!
