//! The messages between maker and taker.

use vstd::prelude::*;
use crate::contract::setup::SetupMsg;
use crate::daemon::model::{Order, OrderId, Usd};

verus! {

/// What a taker sends to the maker.
#[derive(Clone, Debug)]
pub enum TakerToMaker {
    TakeOffer { offer_id: OrderId, quantity: Usd },
    StartContractSetup(OrderId),
    Protocol(SetupMsg),
}

/// What the maker sends to a taker.
#[derive(Clone, Debug)]
pub enum MakerToTaker {
    CurrentOffer(Option<Order>),
    ConfirmTakeOffer(OrderId),
    InvalidOfferId(OrderId),
    Protocol(SetupMsg),
}

} // verus!
