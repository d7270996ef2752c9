//! Normalisation of a fitness tracker's vendor documents into typed records,
//! and the fan-out of those records into time-series points and pub/sub
//! messages.

pub mod config;
pub mod derivation;
pub mod errors;
pub mod export;
pub mod oura_api;
pub mod poller;
pub mod records;
pub mod text;
pub mod time;
