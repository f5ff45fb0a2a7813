//! A verified core for sessions over a network media transport: pixel-format
//! arithmetic, frame types with their size invariants, and the decision logic of
//! discovery, receive and send sessions. The core performs no network access
//! itself; the host hands it what the transport reported and acts on what it
//! decides.

pub mod codec;
pub mod discovery;
pub mod engine;
pub mod error;
pub mod frames;
pub mod laws;
pub mod receiver;
pub mod sender;
pub mod text;
