//! A token-gated access controller: a visitor proves control of a blockchain
//! address by signing a fixed challenge, the controller checks that address's balance
//! of a configured asset, and a qualifying visitor receives one single-use invite.

pub mod config;
pub mod gate;
pub mod oracle;
pub mod request;
pub mod session;
pub mod signature;
