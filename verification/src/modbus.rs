//! The protocol client: function codes, transport vocabulary, value shaping,
//! errors, and the client's state machine.

pub mod client;
pub mod coil;
pub mod error;
pub mod function;
pub mod laws;
pub mod transport;
