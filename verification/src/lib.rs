//! Bring-up of a paravirtualised network device: region validation,
//! feature negotiation and the status handshake, as verified logic over
//! plain values.

pub mod config;
pub mod driver;
pub mod error;
pub mod features;
pub mod handshake;
pub mod region;
pub mod status;
pub mod trace;
