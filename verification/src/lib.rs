//! Verified core of an Atomicals protocol client for Bitcoin: token and realm
//! configuration rules, bitwork (proof-of-work prefix) matching and nonce search,
//! reveal-script framing, transaction size accounting and the decisions that
//! minting makes between its wallet round trips.

pub mod errors;
pub mod text;
pub mod types;
pub mod utils;
pub mod codec;
pub mod digest;
pub mod chain;
pub mod operations;
pub mod worker;
pub mod wallet;
pub mod pattern;
pub mod entry;
pub mod signing;
