//! The contract itself: what the parties agree on, the transactions that
//! follow from it, the handshake that sets it up, its renewals, and the
//! punishment of a party that publishes a superseded version.

pub mod graph;
pub mod params;
pub mod payout;
pub mod protocol;
pub mod punish;
pub mod setup;
pub mod version;
