//! The contract as the trading side of the system sees it: amounts, prices,
//! orders, and the states that a contract goes through.

use vstd::prelude::*;
use crate::daemon::decimal::Decimal;

verus! {

/// An amount of US dollars.
#[derive(Clone, Copy, Debug, PartialEq, Eq, Structural)]
pub struct Usd {
    value: Decimal,
}

impl Usd {
    /// The amount as a number.
    pub closed spec fn decimal(&self) -> Decimal {
        self.value
    }

    /// Every amount is representable.
    pub open spec fn wf(&self) -> bool {
        self.decimal().is_representable()
    }

    /// The amount of a number of dollars.
    pub fn new(value: Decimal) -> (usd: Usd)
        ensures
            usd.decimal() == value,
    {
        Usd { value }
    }

    /// The amount as a number.
    pub fn into_decimal(self) -> (value: Decimal)
        ensures
            value == self.decimal(),
    {
        self.value
    }
}

/// A price in US dollars. A price is greater than zero.
#[derive(Clone, Copy, Debug, PartialEq, Eq, Structural)]
pub struct Price {
    value: Decimal,
}

/// Why a number is no price.
#[derive(Clone, Copy, Debug, PartialEq, Eq, Structural)]
pub enum PriceError {
    Zero,
    Negative,
}

impl Price {
    /// The price as a number.
    pub closed spec fn decimal(&self) -> Decimal {
        self.value
    }

    /// A price is representable and greater than zero.
    pub open spec fn wf(&self) -> bool {
        self.decimal().is_representable() && self.decimal().mantissa > 0
    }

    /// The price that a number stands for: zero and negative numbers are
    /// refused.
    pub fn new(value: Decimal) -> (price: Result<Price, PriceError>)
        ensures
            match price {
                Ok(p) => value.mantissa > 0 && p.decimal() == value,
                Err(PriceError::Zero) => value.mantissa == 0,
                Err(PriceError::Negative) => value.mantissa < 0,
            },
            price is Ok && value.is_representable() ==> price->Ok_0.wf(),
    {
        if value.mantissa == 0 {
            Err(PriceError::Zero)
        } else if value.mantissa < 0 {
            Err(PriceError::Negative)
        } else {
            Ok(Price { value })
        }
    }

    /// The price that a number greater than zero stands for.
    pub fn from_positive(value: Decimal) -> (price: Price)
        requires
            value.mantissa > 0,
        ensures
            price.decimal() == value,
    {
        Price { value }
    }

    /// The price as a number.
    pub fn into_decimal(self) -> (value: Decimal)
        ensures
            value == self.decimal(),
    {
        self.value
    }
}

/// The side of a contract that a party is on.
#[derive(Clone, Copy, Debug, PartialEq, Eq, Structural)]
pub enum Role {
    Maker,
    Taker,
}

/// Who made a proposal: the other party or this one.
#[derive(Clone, Copy, Debug, PartialEq, Eq, Structural)]
pub enum SettlementKind {
    Incoming,
    Outgoing,
}

/// A proposal to change a running contract that has not been answered yet.
#[derive(Clone, Copy, Debug, PartialEq, Eq, Structural)]
pub enum UpdateCfdProposal {
    Settlement { price: Price, direction: SettlementKind },
    RollOverProposal { direction: SettlementKind },
}

/// A settlement that both parties agreed on, waiting to be confirmed.
#[derive(Clone, Copy, Debug, PartialEq, Eq, Structural)]
pub struct CollaborativeSettlement {
    pub price: Price,
    /// What this party is paid, in satoshi.
    pub payout: u64,
}

/// The state of a contract.
#[derive(Clone, Copy, Debug, PartialEq, Eq, Structural)]
pub enum CfdState {
    OutgoingOrderRequest,
    IncomingOrderRequest,
    Accepted,
    Rejected,
    ContractSetup,
    PendingOpen,
    Open { collaborative_close: Option<CollaborativeSettlement> },
    PendingCommit,
    PendingCet,
    OpenCommitted,
    PendingRefund,
    Refunded,
    SetupFailed,
    Closed,
}

/// The market that a contract is on.
#[derive(Clone, Copy, Debug, PartialEq, Eq, Structural)]
pub enum TradingPair {
    BtcUsd,
}

/// The direction of a position.
#[derive(Clone, Copy, Debug, PartialEq, Eq, Structural)]
pub enum Position {
    Long,
    Short,
}

/// The instrument that a contract follows.
#[derive(Clone, Copy, Debug, PartialEq, Eq, Structural)]
pub enum ContractSymbol {
    BtcUsd,
    EthUsd,
}

/// The instrument as the price feed names it.
#[derive(Clone, Copy, Debug, PartialEq, Eq, Structural)]
pub enum PriceFeedSymbol {
    BtcUsd,
    EthUsd,
}

/// The feed's name for an instrument.
pub fn into_price_feed_symbol(symbol: ContractSymbol) -> (feed: PriceFeedSymbol)
    ensures
        feed == match symbol {
            ContractSymbol::BtcUsd => PriceFeedSymbol::BtcUsd,
            ContractSymbol::EthUsd => PriceFeedSymbol::EthUsd,
        },
{
    match symbol {
        ContractSymbol::BtcUsd => PriceFeedSymbol::BtcUsd,
        ContractSymbol::EthUsd => PriceFeedSymbol::EthUsd,
    }
}

/// The factor by which a position exceeds its margin.
#[derive(Clone, Copy, Debug, PartialEq, Eq, Structural)]
pub struct Leverage(pub u8);

/// Seconds since the Unix epoch.
#[derive(Clone, Copy, Debug, PartialEq, Eq, Structural)]
pub struct Timestamp(pub i64);

/// The identifier of an order: the 16 bytes of a UUID.
#[derive(Clone, Copy, Debug)]
pub struct OrderId(pub [u8; 16]);

/// An offer to open a contract.
#[derive(Clone, Copy, Debug)]
pub struct Order {
    pub id: OrderId,
    pub trading_pair: TradingPair,
    pub position: Position,
    pub price: Price,
    pub min_quantity: Usd,
    pub max_quantity: Usd,
    pub leverage: Leverage,
    pub liquidation_price: Price,
    pub creation_timestamp: Timestamp,
    /// The time between the opening of a contract and its settlement, in
    /// whole seconds.
    pub settlement_interval: i64,
}

/// A bid and an ask of the price feed.
#[derive(Clone, Copy, Debug, PartialEq, Eq, Structural)]
pub struct FeedQuote {
    pub timestamp: Timestamp,
    pub bid: Price,
    pub ask: Price,
}

/// The public key by which a peer is known.
#[derive(Clone, Copy, Debug)]
pub struct Identity(pub [u8; 32]);

/// The identifier of a taker's connection: the 16 bytes of a UUID.
#[derive(Clone, Copy, Debug, PartialEq, Eq)]
pub struct TakerId(pub [u8; 16]);

impl View for TakerId {
    type V = Seq<u8>;

    open spec fn view(&self) -> Seq<u8> {
        self.0@
    }
}

impl View for OrderId {
    type V = Seq<u8>;

    open spec fn view(&self) -> Seq<u8> {
        self.0@
    }
}

} // verus!
