//! What the taker's contract actor does on a command. The actor itself, with
//! its store and its connections, runs outside this library.

use vstd::prelude::*;
use crate::contract::setup::SetupMsg;
use crate::daemon::model::{Order, OrderId, Usd};
use crate::daemon::wire::TakerToMaker;

verus! {

/// Why a command is refused.
#[derive(Clone, Copy, Debug, PartialEq, Eq, Structural)]
pub enum SetupError {
    /// There is no handshake under way that a message could go to.
    NoSetup,
}

/// What the taker's contract actor is asked to do.
#[derive(Clone, Debug)]
pub enum Command {
    TakeOffer { offer_id: OrderId, quantity: Usd },
    NewOffer(Option<Order>),
    OfferAccepted(OrderId),
    IncProtocolMsg(SetupMsg),
    CfdSetupCompleted,
}

/// A step that the taker's contract actor takes in the world outside.
#[derive(Clone, Debug)]
pub enum Action {
    /// Store a new contract for the offer, waiting for the maker's answer.
    InsertPendingCfd { offer_id: OrderId, quantity: Usd },
    /// Store an offer.
    InsertOffer(Order),
    /// Store that the setup of the contract for an offer has begun.
    InsertContractSetup(OrderId),
    /// Publish the contracts as they are stored.
    PublishCfds,
    /// Publish the current offer.
    PublishOffer(Option<Order>),
    /// Send a message to the maker.
    SendToMaker(TakerToMaker),
    /// Start the handshake with the maker.
    StartContractSetup,
    /// Hand a message of the maker to the handshake.
    ForwardToSetup(SetupMsg),
}

/// Whether a handshake with the maker is under way after a command.
pub open spec fn setup_running_after(setup_running: bool, command: Command) -> bool {
    match command {
        Command::OfferAccepted(_) => true,
        Command::CfdSetupCompleted => false,
        _ => setup_running,
    }
}

/// The steps that a command asks for, in their order; a message for a
/// handshake that is not under way is refused.
pub open spec fn actions_of(setup_running: bool, command: Command) -> Result<
    Seq<Action>,
    SetupError,
> {
    match command {
        Command::TakeOffer { offer_id, quantity } => Ok(
            seq![
                Action::InsertPendingCfd { offer_id, quantity },
                Action::PublishCfds,
                Action::SendToMaker(TakerToMaker::TakeOffer { offer_id, quantity }),
            ],
        ),
        Command::NewOffer(Some(offer)) => Ok(
            seq![Action::InsertOffer(offer), Action::PublishOffer(Some(offer))],
        ),
        Command::NewOffer(None) => Ok(seq![Action::PublishOffer(None)]),
        Command::OfferAccepted(offer_id) => Ok(
            seq![
                Action::InsertContractSetup(offer_id),
                Action::PublishCfds,
                Action::StartContractSetup,
            ],
        ),
        Command::IncProtocolMsg(msg) => if setup_running {
            Ok(seq![Action::ForwardToSetup(msg)])
        } else {
            Err(SetupError::NoSetup)
        },
        Command::CfdSetupCompleted => Ok(seq![Action::PublishCfds]),
    }
}

/// Decides what the taker's contract actor does on a command: the steps to
/// take, and whether a handshake is under way afterwards. A refused command
/// changes nothing.
pub fn on_command(setup_running: bool, command: Command) -> (decision: Result<
    (Vec<Action>, bool),
    SetupError,
>)
    ensures
        match decision {
            Ok((actions, running)) => actions_of(setup_running, command) == Ok::<
                Seq<Action>,
                SetupError,
            >(actions@) && running == setup_running_after(setup_running, command),
            Err(e) => actions_of(setup_running, command) == Err::<Seq<Action>, SetupError>(
                e,
            ),
        },
{
    match command {
        Command::TakeOffer { offer_id, quantity } => {
            let actions = vec![
                Action::InsertPendingCfd { offer_id, quantity },
                Action::PublishCfds,
                Action::SendToMaker(TakerToMaker::TakeOffer { offer_id, quantity }),
            ];
            assert(actions@ =~= actions_of(setup_running, command)->Ok_0);
            Ok((actions, setup_running))
        },
        Command::NewOffer(Some(offer)) => {
            let actions = vec![
                Action::InsertOffer(offer),
                Action::PublishOffer(Some(offer)),
            ];
            assert(actions@ =~= actions_of(setup_running, command)->Ok_0);
            Ok((actions, setup_running))
        },
        Command::NewOffer(None) => {
            let actions = vec![Action::PublishOffer(None)];
            assert(actions@ =~= actions_of(setup_running, command)->Ok_0);
            Ok((actions, setup_running))
        },
        Command::OfferAccepted(offer_id) => {
            let actions = vec![
                Action::InsertContractSetup(offer_id),
                Action::PublishCfds,
                Action::StartContractSetup,
            ];
            assert(actions@ =~= actions_of(setup_running, command)->Ok_0);
            Ok((actions, true))
        },
        Command::IncProtocolMsg(msg) => {
            if setup_running {
                let actions = vec![Action::ForwardToSetup(msg)];
                assert(actions@ =~= actions_of(setup_running, command)->Ok_0);
                Ok((actions, setup_running))
            } else {
                Err(SetupError::NoSetup)
            }
        },
        Command::CfdSetupCompleted => {
            let actions = vec![Action::PublishCfds];
            assert(actions@ =~= actions_of(setup_running, command)->Ok_0);
            Ok((actions, false))
        },
    }
}

} // verus!
