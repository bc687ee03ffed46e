//! A sans-I/O MQTT client core: configuration, session bookkeeping,
//! connection state tracking and the protocol decisions of an MQTT client,
//! for MQTT v3.1.1 and v5.0.
use vstd::prelude::*;

pub mod client;
pub mod config;
pub mod engine;
pub mod error;
pub mod handler;
pub mod packet;
pub mod protocol_config;
pub mod session;
pub mod state;
pub mod text;
pub mod transport;
pub mod types;

verus! {

} // verus!
