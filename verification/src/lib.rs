//! Connector logic for a perpetual-futures exchange: request signing, symbol
//! notation, latency and funding trackers, order vocabulary and the decisions
//! of the streaming and account synchronisation loops.

pub mod account;
pub mod client;
pub mod crypto;
pub mod error;
pub mod funding;
pub mod json;
pub mod latency;
pub mod market;
pub mod orders;
pub mod params;
pub mod signing;
pub mod stream;
pub mod symbol;
pub mod table;
pub mod text;
