//! Decision core of a supervisory Modbus client.
//!
//! The crate holds no socket and awaits nothing. Every operation of the client is
//! split in two: a function that says which call the transport has to make and
//! how long to wait for it, and a function that takes what the transport
//! answered and says what the operation returns and which state the client is
//! in afterwards. A driver performs the calls in between.
//!
//! - [`device_configuration`]: the device list, and the endpoints it resolves into.
//! - [`modbus`]: the client of one endpoint.
//! - [`session`]: the sequence of operations that the driver runs at each endpoint.

pub mod device_configuration;
pub mod modbus;
pub mod session;
