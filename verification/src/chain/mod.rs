//! Transactions, the descriptors that their outputs pay to, their fees and
//! their witnesses.

pub mod descriptor;
pub mod fee;
pub mod finalize;
pub mod transaction;
