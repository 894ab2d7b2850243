//! The decision to propose a settlement: only at a price that is fresh.

use vstd::prelude::*;
use crate::daemon::decimal::Decimal;
use crate::daemon::model::{OrderId, Price, PriceError, Timestamp};

verus! {

/// The minutes between two quotes of the price feed.
pub const QUOTE_INTERVAL_MINUTES: i64 = 1;

/// The age in seconds beyond which a quote is too old to settle at: two
/// intervals of the price feed.
pub const QUOTE_MAX_AGE_SECS: i64 = 2 * 60 * QUOTE_INTERVAL_MINUTES;

/// A quote as the price feed gives it.
#[derive(Clone, Copy, Debug, PartialEq, Eq, Structural)]
pub struct LatestQuote {
    pub timestamp: Timestamp,
    pub bid: Decimal,
    pub ask: Decimal,
}

/// A proposal to settle a contract at the current price.
#[derive(Clone, Copy, Debug)]
pub struct ProposeSettlement {
    pub order_id: OrderId,
    pub bid: Price,
    pub ask: Price,
    pub quote_timestamp: Timestamp,
}

/// Why no settlement is proposed.
#[derive(Clone, Copy, Debug, PartialEq, Eq, Structural)]
pub enum ProposalError {
    /// The price feed has no quote for the contract.
    NoQuote,
    /// The latest quote is older than two intervals of the price feed.
    StaleQuote,
    /// The quote is no price.
    InvalidPrice(PriceError),
}

/// Whether a quote is older than a number of seconds at a given time.
pub open spec fn is_older_than(quote: LatestQuote, now: Timestamp, seconds: i64) -> bool {
    now.0 - quote.timestamp.0 > seconds
}

/// The error of a number that is no price.
pub open spec fn price_error(value: Decimal) -> Option<PriceError> {
    if value.mantissa == 0 {
        Some(PriceError::Zero)
    } else if value.mantissa < 0 {
        Some(PriceError::Negative)
    } else {
        None
    }
}

/// The verdict on a quote: it must be there, be fresh, and hold two prices.
pub open spec fn proposal_error(quote: Option<LatestQuote>, now: Timestamp) -> Option<
    ProposalError,
> {
    match quote {
        None => Some(ProposalError::NoQuote),
        Some(q) => if is_older_than(q, now, QUOTE_MAX_AGE_SECS) {
            Some(ProposalError::StaleQuote)
        } else if price_error(q.bid) is Some {
            Some(ProposalError::InvalidPrice(price_error(q.bid)->Some_0))
        } else if price_error(q.ask) is Some {
            Some(ProposalError::InvalidPrice(price_error(q.ask)->Some_0))
        } else {
            None
        },
    }
}

/// Decides whether to propose a settlement of a contract, given the latest
/// quote for its symbol and the time. A quote that is older than two minutes
/// is refused: nobody settles at an old price.
pub fn propose_settlement(order_id: OrderId, quote: Option<LatestQuote>, now: Timestamp) -> (proposal:
    Result<ProposeSettlement, ProposalError>)
    ensures
        match proposal {
            Ok(p) => {
                &&& proposal_error(quote, now) is None
                &&& quote is Some
                &&& p.order_id == order_id
                &&& p.bid.decimal() == quote->Some_0.bid
                &&& p.ask.decimal() == quote->Some_0.ask
                &&& p.quote_timestamp == quote->Some_0.timestamp
            },
            Err(e) => proposal_error(quote, now) == Some(e),
        },
{
    let latest_quote = match quote {
        Some(quote) => quote,
        None => {
            return Err(ProposalError::NoQuote);
        },
    };
    if now.0 as i128 - latest_quote.timestamp.0 as i128 > QUOTE_MAX_AGE_SECS as i128 {
        return Err(ProposalError::StaleQuote);
    }
    let bid = match Price::new(latest_quote.bid) {
        Ok(price) => price,
        Err(e) => {
            return Err(ProposalError::InvalidPrice(e));
        },
    };
    let ask = match Price::new(latest_quote.ask) {
        Ok(price) => price,
        Err(e) => {
            return Err(ProposalError::InvalidPrice(e));
        },
    };
    Ok(ProposeSettlement { order_id, bid, ask, quote_timestamp: latest_quote.timestamp })
}

} // verus!
