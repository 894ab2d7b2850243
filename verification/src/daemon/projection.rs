//! What the user interface is shown of orders, quotes and contracts: amounts
//! cut to cents, one flat state per contract, and the actions that a state
//! allows.

use vstd::prelude::*;
use crate::daemon::decimal::{decimal_text, rounded_to, Decimal};
use crate::daemon::model::{
    Leverage, Order, OrderId, Position, Role, SettlementKind, Timestamp, TradingPair,
    UpdateCfdProposal,
};
use crate::daemon::model;
use crate::hex::{hex_of, to_hex};

verus! {

/// A new value for one of the feeds.
pub struct Update<T>(pub T);

/// `value` rounded to cents.
pub open spec fn cents(value: Decimal) -> Decimal {
    let rounded = rounded_to(value.mantissa as int, value.scale as nat, 2);
    Decimal { mantissa: rounded.0 as i128, scale: rounded.1 as u32 }
}

/// An amount of US dollars, rounded to cents.
#[derive(Debug, Clone, Copy, PartialEq, Eq, Structural)]
pub struct Usd {
    inner: model::Usd,
}

impl Usd {
    /// The rounded amount.
    pub closed spec fn amount(&self) -> model::Usd {
        self.inner
    }

    /// The amount rounded to cents, half to even.
    pub fn new(usd: model::Usd) -> (shown: Usd)
        requires
            usd.wf(),
        ensures
            shown.amount().decimal() == cents(usd.decimal()),
            shown.amount().wf(),
    {
        Usd { inner: model::Usd::new(usd.into_decimal().round(2)) }
    }

    /// The amount as it is written into a message: its decimal text.
    pub fn serialize(&self) -> (text: String)
        requires
            self.amount().wf(),
        ensures
            text@ == decimal_text(
                self.amount().decimal().mantissa as int,
                self.amount().decimal().scale as nat,
            ),
    {
        self.inner.into_decimal().text()
    }
}

/// A price, rounded to cents.
#[derive(Debug, Clone, Copy, PartialEq, Eq, Structural)]
pub struct Price {
    inner: model::Price,
}

impl Price {
    /// The rounded price.
    pub closed spec fn amount(&self) -> model::Price {
        self.inner
    }

    /// The price rounded to cents, half to even. A price that rounds to zero
    /// has no rounded form: see [`Price::try_new`].
    pub fn new(price: model::Price) -> (shown: Price)
        requires
            price.wf(),
            cents(price.decimal()).mantissa > 0,
        ensures
            shown.amount().decimal() == cents(price.decimal()),
            shown.amount().wf(),
    {
        Price { inner: model::Price::from_positive(price.into_decimal().round(2)) }
    }

    /// The price rounded to cents, or `None` where it rounds to zero.
    pub fn try_new(price: model::Price) -> (shown: Option<Price>)
        requires
            price.wf(),
        ensures
            match shown {
                Some(p) => cents(price.decimal()).mantissa > 0 && p.amount().decimal() == cents(
                    price.decimal(),
                ) && p.amount().wf(),
                None => cents(price.decimal()).mantissa <= 0,
            },
    {
        if price.into_decimal().round(2).is_positive() {
            Some(Price::new(price))
        } else {
            None
        }
    }

    /// The rounded price, as a price of the model.
    pub fn into_inner(self) -> (price: model::Price)
        ensures
            price == self.amount(),
    {
        self.inner
    }

    /// The price as it is written into a message: its decimal text.
    pub fn serialize(&self) -> (text: String)
        requires
            self.amount().wf(),
        ensures
            text@ == decimal_text(
                self.amount().decimal().mantissa as int,
                self.amount().decimal().scale as nat,
            ),
    {
        self.inner.into_decimal().text()
    }
}

/// The latest bid and ask.
#[derive(Debug, Clone, Copy, PartialEq, Eq, Structural)]
pub struct Quote {
    pub bid: Price,
    pub ask: Price,
    pub last_updated_at: Timestamp,
}

impl Quote {
    /// The quote of the price feed with both prices rounded to cents, or `None`
    /// where one of them rounds to zero.
    pub fn from_feed(quote: model::FeedQuote) -> (shown: Option<Quote>)
        requires
            quote.bid.wf(),
            quote.ask.wf(),
        ensures
            match shown {
                Some(q) => {
                    &&& cents(quote.bid.decimal()).mantissa > 0
                    &&& cents(quote.ask.decimal()).mantissa > 0
                    &&& q.bid.amount().decimal() == cents(quote.bid.decimal())
                    &&& q.ask.amount().decimal() == cents(quote.ask.decimal())
                    &&& q.last_updated_at == quote.timestamp
                },
                None => cents(quote.bid.decimal()).mantissa <= 0 || cents(
                    quote.ask.decimal(),
                ).mantissa <= 0,
            },
    {
        match (Price::try_new(quote.bid), Price::try_new(quote.ask)) {
            (Some(bid), Some(ask)) => Some(Quote { bid, ask, last_updated_at: quote.timestamp }),
            _ => None,
        }
    }

    /// The quote in the form of the price feed.
    pub fn into_feed(self) -> (quote: model::FeedQuote)
        ensures
            quote.timestamp == self.last_updated_at,
            quote.bid == self.bid.amount(),
            quote.ask == self.ask.amount(),
    {
        model::FeedQuote {
            timestamp: self.last_updated_at,
            bid: self.bid.into_inner(),
            ask: self.ask.into_inner(),
        }
    }
}

/// An order as it is shown.
#[derive(Debug, Clone, Copy)]
pub struct CfdOrder {
    pub id: OrderId,
    pub trading_pair: TradingPair,
    pub position: Position,
    pub price: Price,
    pub min_quantity: Usd,
    pub max_quantity: Usd,
    pub leverage: Leverage,
    pub liquidation_price: Price,
    pub creation_timestamp: Timestamp,
    pub settlement_time_interval_in_secs: u64,
}

impl CfdOrder {
    /// Whether an order can be shown: its amounts are valid, its prices do not
    /// round to zero, and its settlement interval is not negative.
    pub open spec fn showable(order: Order) -> bool {
        &&& cents(order.price.decimal()).mantissa > 0
        &&& cents(order.liquidation_price.decimal()).mantissa > 0
        &&& order.settlement_interval >= 0
    }

    /// The order with its amounts rounded to cents, or `None` where it is not
    /// [`showable`](CfdOrder::showable).
    pub fn from_order(order: Order) -> (shown: Option<CfdOrder>)
        requires
            order.price.wf(),
            order.liquidation_price.wf(),
            order.min_quantity.wf(),
            order.max_quantity.wf(),
        ensures
            shown is Some <==> Self::showable(order),
            shown matches Some(o) ==> {
                &&& o.id == order.id
                &&& o.trading_pair == order.trading_pair
                &&& o.position == order.position
                &&& o.price.amount().decimal() == cents(order.price.decimal())
                &&& o.min_quantity.amount().decimal() == cents(order.min_quantity.decimal())
                &&& o.max_quantity.amount().decimal() == cents(order.max_quantity.decimal())
                &&& o.leverage == order.leverage
                &&& o.liquidation_price.amount().decimal() == cents(
                    order.liquidation_price.decimal(),
                )
                &&& o.creation_timestamp == order.creation_timestamp
                &&& o.settlement_time_interval_in_secs == order.settlement_interval
            },
    {
        if order.settlement_interval < 0 {
            return None;
        }
        match (Price::try_new(order.price), Price::try_new(order.liquidation_price)) {
            (Some(price), Some(liquidation_price)) => Some(
                CfdOrder {
                    id: order.id,
                    trading_pair: order.trading_pair,
                    position: order.position,
                    price,
                    min_quantity: Usd::new(order.min_quantity),
                    max_quantity: Usd::new(order.max_quantity),
                    leverage: order.leverage,
                    liquidation_price,
                    creation_timestamp: order.creation_timestamp,
                    settlement_time_interval_in_secs: order.settlement_interval as u64,
                },
            ),
            _ => None,
        }
    }
}

/// The name of a peer: its public key in hexadecimal.
#[derive(Clone, Debug, PartialEq, Eq)]
pub struct Identity(pub String);

impl Identity {
    /// The name of a peer.
    pub fn from_model(id: &model::Identity) -> (name: Identity)
        ensures
            name.0@ == hex_of(id.0@),
    {
        Identity(to_hex(id.0.as_slice()))
    }
}

/// The names of the takers that are connected, in their order.
pub fn connected_takers(ids: &Vec<model::Identity>) -> (names: Vec<Identity>)
    ensures
        names@.len() == ids@.len(),
        forall|i: int| 0 <= i < ids@.len() ==> (#[trigger] names@[i]).0@ == hex_of(ids@[i].0@),
{
    let mut names: Vec<Identity> = Vec::new();
    let mut i: usize = 0;
    while i < ids.len()
        invariant
            i <= ids@.len(),
            names@.len() == i,
            forall|j: int| 0 <= j < i ==> (#[trigger] names@[j]).0@ == hex_of(ids@[j].0@),
        decreases ids@.len() - i,
    {
        names.push(Identity::from_model(&ids[i]));
        i += 1;
    }
    names
}

/// The state of a contract as it is shown.
#[derive(Debug, Clone, Copy, PartialEq, Eq, Structural)]
pub enum CfdState {
    OutgoingOrderRequest,
    IncomingOrderRequest,
    Accepted,
    Rejected,
    ContractSetup,
    PendingOpen,
    Open,
    PendingCommit,
    PendingCet,
    PendingClose,
    OpenCommitted,
    IncomingSettlementProposal,
    OutgoingSettlementProposal,
    IncomingRollOverProposal,
    OutgoingRollOverProposal,
    Closed,
    PendingRefund,
    Refunded,
    SetupFailed,
}

/// The state that a pending proposal puts a contract in.
pub open spec fn proposal_state(proposal: UpdateCfdProposal) -> CfdState {
    match proposal {
        UpdateCfdProposal::Settlement { direction: SettlementKind::Outgoing, .. } =>
            CfdState::OutgoingSettlementProposal,
        UpdateCfdProposal::Settlement { direction: SettlementKind::Incoming, .. } =>
            CfdState::IncomingSettlementProposal,
        UpdateCfdProposal::RollOverProposal { direction: SettlementKind::Outgoing } =>
            CfdState::OutgoingRollOverProposal,
        UpdateCfdProposal::RollOverProposal { direction: SettlementKind::Incoming } =>
            CfdState::IncomingRollOverProposal,
    }
}

/// The state that is shown of a contract without a pending proposal.
pub open spec fn settled_state(state: model::CfdState) -> CfdState {
    match state {
        model::CfdState::Open { collaborative_close: Some(_) } => CfdState::PendingClose,
        model::CfdState::Open { collaborative_close: None } => CfdState::Open,
        model::CfdState::OutgoingOrderRequest => CfdState::OutgoingOrderRequest,
        model::CfdState::IncomingOrderRequest => CfdState::IncomingOrderRequest,
        model::CfdState::Accepted => CfdState::Accepted,
        model::CfdState::Rejected => CfdState::Rejected,
        model::CfdState::ContractSetup => CfdState::ContractSetup,
        model::CfdState::PendingOpen => CfdState::PendingOpen,
        model::CfdState::OpenCommitted => CfdState::OpenCommitted,
        model::CfdState::PendingRefund => CfdState::PendingRefund,
        model::CfdState::Refunded => CfdState::Refunded,
        model::CfdState::SetupFailed => CfdState::SetupFailed,
        model::CfdState::PendingCommit => CfdState::PendingCommit,
        model::CfdState::PendingCet => CfdState::PendingCet,
        model::CfdState::Closed => CfdState::Closed,
    }
}

/// The state that is shown of a contract: a pending proposal hides the state
/// of the contract itself; without one, an open contract with an agreed
/// settlement is shown as closing.
pub fn to_cfd_state(cfd_state: &model::CfdState, proposal_status: Option<&UpdateCfdProposal>) -> (shown:
    CfdState)
    ensures
        shown == match proposal_status {
            Some(proposal) => proposal_state(*proposal),
            None => settled_state(*cfd_state),
        },
{
    match proposal_status {
        Some(UpdateCfdProposal::Settlement { direction: SettlementKind::Outgoing, .. }) =>
            CfdState::OutgoingSettlementProposal,
        Some(UpdateCfdProposal::Settlement { direction: SettlementKind::Incoming, .. }) =>
            CfdState::IncomingSettlementProposal,
        Some(UpdateCfdProposal::RollOverProposal { direction: SettlementKind::Outgoing }) =>
            CfdState::OutgoingRollOverProposal,
        Some(UpdateCfdProposal::RollOverProposal { direction: SettlementKind::Incoming }) =>
            CfdState::IncomingRollOverProposal,
        None => match cfd_state {
            model::CfdState::Open { collaborative_close: Some(_) } => CfdState::PendingClose,
            model::CfdState::OutgoingOrderRequest => CfdState::OutgoingOrderRequest,
            model::CfdState::IncomingOrderRequest => CfdState::IncomingOrderRequest,
            model::CfdState::Accepted => CfdState::Accepted,
            model::CfdState::Rejected => CfdState::Rejected,
            model::CfdState::ContractSetup => CfdState::ContractSetup,
            model::CfdState::PendingOpen => CfdState::PendingOpen,
            model::CfdState::Open { .. } => CfdState::Open,
            model::CfdState::OpenCommitted => CfdState::OpenCommitted,
            model::CfdState::PendingRefund => CfdState::PendingRefund,
            model::CfdState::Refunded => CfdState::Refunded,
            model::CfdState::SetupFailed => CfdState::SetupFailed,
            model::CfdState::PendingCommit => CfdState::PendingCommit,
            model::CfdState::PendingCet => CfdState::PendingCet,
            model::CfdState::Closed => CfdState::Closed,
        },
    }
}

/// What a user can do with a contract.
#[derive(Debug, Clone, Copy, PartialEq, Eq, Structural)]
pub enum CfdAction {
    AcceptOrder,
    RejectOrder,
    Commit,
    Settle,
    AcceptSettlement,
    RejectSettlement,
    RollOver,
    AcceptRollOver,
    RejectRollOver,
}

impl CfdAction {
    /// The name of the action in messages, in camel case.
    pub fn name(&self) -> (text: &'static str)
        ensures
            text@ == Self::name_of(*self),
    {
        match self {
            CfdAction::AcceptOrder => "acceptOrder",
            CfdAction::RejectOrder => "rejectOrder",
            CfdAction::Commit => "commit",
            CfdAction::Settle => "settle",
            CfdAction::AcceptSettlement => "acceptSettlement",
            CfdAction::RejectSettlement => "rejectSettlement",
            CfdAction::RollOver => "rollOver",
            CfdAction::AcceptRollOver => "acceptRollOver",
            CfdAction::RejectRollOver => "rejectRollOver",
        }
    }

    /// The name of each action.
    pub open spec fn name_of(action: CfdAction) -> Seq<char> {
        match action {
            CfdAction::AcceptOrder => "acceptOrder"@,
            CfdAction::RejectOrder => "rejectOrder"@,
            CfdAction::Commit => "commit"@,
            CfdAction::Settle => "settle"@,
            CfdAction::AcceptSettlement => "acceptSettlement"@,
            CfdAction::RejectSettlement => "rejectSettlement"@,
            CfdAction::RollOver => "rollOver"@,
            CfdAction::AcceptRollOver => "acceptRollOver"@,
            CfdAction::RejectRollOver => "rejectRollOver"@,
        }
    }
}

/// The actions that a state allows a role, in the order in which they are
/// offered.
pub open spec fn actions_of(state: CfdState, role: Role) -> Seq<CfdAction> {
    match (state, role) {
        (CfdState::IncomingOrderRequest, Role::Maker) => seq![
            CfdAction::AcceptOrder,
            CfdAction::RejectOrder,
        ],
        (CfdState::IncomingSettlementProposal, Role::Maker) => seq![
            CfdAction::AcceptSettlement,
            CfdAction::RejectSettlement,
        ],
        (CfdState::IncomingRollOverProposal, Role::Maker) => seq![
            CfdAction::AcceptRollOver,
            CfdAction::RejectRollOver,
        ],
        (CfdState::OutgoingSettlementProposal, Role::Maker) => seq![CfdAction::Commit],
        (CfdState::PendingClose, _) => seq![CfdAction::Commit],
        (CfdState::Open, Role::Taker) => seq![
            CfdAction::RollOver,
            CfdAction::Commit,
            CfdAction::Settle,
        ],
        (CfdState::Open, Role::Maker) => seq![CfdAction::Commit],
        _ => seq![],
    }
}

/// The actions that a user in `role` can take on a contract in `state`.
pub fn available_actions(state: CfdState, role: Role) -> (actions: Vec<CfdAction>)
    ensures
        actions@ == actions_of(state, role),
{
    let actions = match (state, role) {
        (CfdState::IncomingOrderRequest, Role::Maker) => {
            vec![CfdAction::AcceptOrder, CfdAction::RejectOrder]
        },
        (CfdState::IncomingSettlementProposal, Role::Maker) => {
            vec![CfdAction::AcceptSettlement, CfdAction::RejectSettlement]
        },
        (CfdState::IncomingRollOverProposal, Role::Maker) => {
            vec![CfdAction::AcceptRollOver, CfdAction::RejectRollOver]
        },
        (CfdState::OutgoingSettlementProposal, Role::Maker) => {
            vec![CfdAction::Commit]
        },
        (CfdState::PendingClose, _) => {
            vec![CfdAction::Commit]
        },
        (CfdState::Open, Role::Taker) => {
            vec![CfdAction::RollOver, CfdAction::Commit, CfdAction::Settle]
        },
        (CfdState::Open, Role::Maker) => vec![CfdAction::Commit],
        _ => vec![],
    };
    assert(actions@ =~= actions_of(state, role));
    actions
}

} // verus!
