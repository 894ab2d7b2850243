//! The maker's connections to the takers: who is connected, which command a
//! message of a taker turns into, and which takers a message of the maker
//! goes to. The connections themselves are kept outside this library.

use vstd::prelude::*;
use crate::bytes::bytes_eq;
use crate::contract::setup::SetupMsg;
use crate::daemon::maker_cfd_actor;
use crate::daemon::model::{Order, OrderId, TakerId};
use crate::daemon::wire::{MakerToTaker, TakerToMaker};

verus! {

/// What the maker's connection actor is asked to do.
#[derive(Clone, Debug)]
pub enum Command {
    BroadcastCurrentOffer(Option<Order>),
    SendCurrentOffer { offer: Option<Order>, taker_id: TakerId },
    NotifyInvalidOfferId { id: OrderId, taker_id: TakerId },
    NotifyOfferAccepted { id: OrderId, taker_id: TakerId },
    OutProtocolMsg { taker_id: TakerId, msg: SetupMsg },
}

/// The command that a message of a taker turns into.
pub open spec fn command_of(taker_id: TakerId, message: TakerToMaker) -> maker_cfd_actor::Command {
    match message {
        TakerToMaker::TakeOffer { offer_id, quantity } => maker_cfd_actor::Command::TakeOffer {
            taker_id,
            offer_id,
            quantity,
        },
        TakerToMaker::StartContractSetup(offer_id) => maker_cfd_actor::Command::StartContractSetup {
            taker_id,
            offer_id,
        },
        TakerToMaker::Protocol(msg) => maker_cfd_actor::Command::IncProtocolMsg(msg),
    }
}

/// Turns a message of a taker into a command for the maker's contract actor.
pub fn in_taker_message(taker_id: TakerId, message: TakerToMaker) -> (command: maker_cfd_actor::Command)
    ensures
        command == command_of(taker_id, message),
{
    match message {
        TakerToMaker::TakeOffer { offer_id, quantity } => maker_cfd_actor::Command::TakeOffer {
            taker_id,
            offer_id,
            quantity,
        },
        TakerToMaker::StartContractSetup(offer_id) => maker_cfd_actor::Command::StartContractSetup {
            taker_id,
            offer_id,
        },
        TakerToMaker::Protocol(msg) => maker_cfd_actor::Command::IncProtocolMsg(msg),
    }
}

/// A message on its way to a taker.
#[derive(Clone, Debug)]
pub struct Delivery {
    pub taker_id: TakerId,
    pub message: MakerToTaker,
}

/// Why a message cannot be delivered.
#[derive(Clone, Copy, Debug, PartialEq, Eq, Structural)]
pub enum RoutingError {
    /// There is no connection to the taker.
    NoConnection,
}

/// The takers that are connected, each once, in the order in which they
/// connected.
#[derive(Clone, Debug)]
pub struct Connections {
    takers: Vec<TakerId>,
}

/// The message of a command to a single taker, and the taker.
pub open spec fn single_delivery(command: Command) -> Option<(TakerId, MakerToTaker)> {
    match command {
        Command::BroadcastCurrentOffer(_) => None,
        Command::SendCurrentOffer { offer, taker_id } => Some(
            (taker_id, MakerToTaker::CurrentOffer(offer)),
        ),
        Command::NotifyInvalidOfferId { id, taker_id } => Some(
            (taker_id, MakerToTaker::InvalidOfferId(id)),
        ),
        Command::NotifyOfferAccepted { id, taker_id } => Some(
            (taker_id, MakerToTaker::ConfirmTakeOffer(id)),
        ),
        Command::OutProtocolMsg { taker_id, msg } => Some(
            (taker_id, MakerToTaker::Protocol(msg)),
        ),
    }
}

/// The message of a broadcast.
pub open spec fn broadcast_message(command: Command) -> MakerToTaker {
    match command {
        Command::BroadcastCurrentOffer(offer) => MakerToTaker::CurrentOffer(offer),
        _ => MakerToTaker::CurrentOffer(None),
    }
}

impl Connections {
    /// The identifiers of the takers that are connected.
    pub closed spec fn takers(&self) -> Seq<Seq<u8>> {
        Seq::new(self.takers@.len(), |i: int| self.takers@[i]@)
    }

    /// No taker is connected twice.
    pub open spec fn wf(&self) -> bool {
        self.takers().no_duplicates()
    }

    /// No connections.
    pub fn new() -> (connections: Connections)
        ensures
            connections.takers() == Seq::<Seq<u8>>::empty(),
            connections.wf(),
    {
        let connections = Connections { takers: Vec::new() };
        assert(connections.takers() =~= Seq::<Seq<u8>>::empty());
        connections
    }

    /// Whether a taker is connected.
    pub fn is_connected(&self, taker_id: &TakerId) -> (connected: bool)
        ensures
            connected == self.takers().contains(taker_id@),
    {
        let mut i: usize = 0;
        while i < self.takers.len()
            invariant
                i <= self.takers@.len(),
                forall|j: int| 0 <= j < i ==> self.takers()[j] != taker_id@,
            decreases self.takers@.len() - i,
        {
            if bytes_eq(self.takers[i].0.as_slice(), taker_id.0.as_slice()) {
                assert(self.takers()[i as int] == taker_id@);
                return true;
            }
            i += 1;
        }
        false
    }

    /// Takes note of a new connection, and tells the contract actor of it. A
    /// taker that is connected already stays connected once.
    pub fn connect(&mut self, taker_id: TakerId) -> (command: maker_cfd_actor::Command)
        requires
            old(self).wf(),
        ensures
            final(self).wf(),
            final(self).takers() == if old(self).takers().contains(taker_id@) {
                old(self).takers()
            } else {
                old(self).takers().push(taker_id@)
            },
            command == (maker_cfd_actor::Command::NewTakerOnline { id: taker_id }),
    {
        if !self.is_connected(&taker_id) {
            let ghost before = self.takers();
            self.takers.push(taker_id);
            assert(self.takers() =~= before.push(taker_id@));
        }
        maker_cfd_actor::Command::NewTakerOnline { id: taker_id }
    }

    /// The number of takers that are connected.
    pub fn len(&self) -> (count: usize)
        ensures
            count == self.takers().len(),
    {
        self.takers.len()
    }

    /// The messages that a command sends out. The current offer goes to every
    /// taker in a broadcast; every other message goes to one taker, and fails
    /// with `NoConnection` where that taker is not connected.
    pub fn route(&self, command: Command) -> (deliveries: Result<
        Vec<Delivery>,
        RoutingError,
    >)
        ensures
            match (single_delivery(command), deliveries) {
                (Some((taker_id, message)), Ok(sent)) => self.takers().contains(taker_id@)
                    && sent@.len() == 1 && sent@[0].taker_id == taker_id && sent@[0].message
                    == message,
                (Some((taker_id, _)), Err(e)) => !self.takers().contains(taker_id@) && e
                    == RoutingError::NoConnection,
                (None, Ok(sent)) => sent@.len() == self.takers().len() && forall|i: int|
                    0 <= i < sent@.len() ==> (#[trigger] sent@[i]).taker_id@ == self.takers()[i]
                        && sent@[i].message == broadcast_message(command),
                (None, Err(_)) => false,
            },
    {
        let (taker_id, message) = match command {
            Command::BroadcastCurrentOffer(offer) => {
                let mut sent: Vec<Delivery> = Vec::new();
                let mut i: usize = 0;
                while i < self.takers.len()
                    invariant
                        i <= self.takers@.len(),
                        sent@.len() == i,
                        forall|j: int|
                            0 <= j < i ==> (#[trigger] sent@[j]).taker_id@ == self.takers()[j]
                                && sent@[j].message == MakerToTaker::CurrentOffer(offer),
                    decreases self.takers@.len() - i,
                {
                    sent.push(
                        Delivery {
                            taker_id: self.takers[i],
                            message: MakerToTaker::CurrentOffer(offer),
                        },
                    );
                    i += 1;
                }
                return Ok(sent);
            },
            Command::SendCurrentOffer { offer, taker_id } => (
                taker_id,
                MakerToTaker::CurrentOffer(offer),
            ),
            Command::NotifyInvalidOfferId { id, taker_id } => (
                taker_id,
                MakerToTaker::InvalidOfferId(id),
            ),
            Command::NotifyOfferAccepted { id, taker_id } => (
                taker_id,
                MakerToTaker::ConfirmTakeOffer(id),
            ),
            Command::OutProtocolMsg { taker_id, msg } => (
                taker_id,
                MakerToTaker::Protocol(msg),
            ),
        };
        if self.is_connected(&taker_id) {
            Ok(vec![Delivery { taker_id, message }])
        } else {
            Err(RoutingError::NoConnection)
        }
    }
}

} // verus!
