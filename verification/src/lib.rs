//! Core of a copy-trading monitor: decoding of on-chain account data, the
//! decision logic of the feed connection, of the message pipeline and of the
//! relay between processes, each stated as a contract and proved.

pub mod ambient;
pub mod arith;
pub mod binary64;
pub mod connection;
pub mod decoder;
pub mod error;
pub mod events;
pub mod json;
pub mod models;
pub mod monitor;
pub mod orchestrator;
pub mod pipeline;
pub mod price_calculator;
pub mod relay;
pub mod startup;
pub mod text;
