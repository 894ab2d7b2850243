//! What the trading daemon decides around the contract: what it shows of
//! orders and contracts, when it proposes a settlement, and whom it sends a
//! message.

pub mod decimal;
pub mod environment;
pub mod maker_cfd_actor;
pub mod maker_inc_connections_actor;
pub mod model;
pub mod projection;
pub mod proposal;
pub mod taker_cfd_actor;
pub mod wire;
