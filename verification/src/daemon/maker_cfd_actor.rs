//! What the maker's contract actor is asked to do.

use vstd::prelude::*;
use crate::contract::setup::SetupMsg;
use crate::daemon::model::{OrderId, TakerId, Usd};

verus! {

/// What the maker's contract actor is asked to do.
#[derive(Clone, Debug)]
pub enum Command {
    TakeOffer { taker_id: TakerId, offer_id: OrderId, quantity: Usd },
    StartContractSetup { taker_id: TakerId, offer_id: OrderId },
    IncProtocolMsg(SetupMsg),
    NewTakerOnline { id: TakerId },
}

} // verus!
