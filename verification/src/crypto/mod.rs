//! Keys, signatures and adaptor signatures on the curve secp256k1, and the
//! oracle's attestation.

pub mod adaptor;
pub mod hashes;
pub mod keys;
pub mod oracle;
pub mod secp;
