//! The six ways in which an operation of the client can fail.

use vstd::prelude::*;

verus! {

/// Why an operation of the client did not succeed.
#[derive(Debug, Clone, PartialEq, Eq)]
pub enum ModbusError {
    /// A read or a write was attempted while the client holds no transport context.
    NotConnected,
    /// A bounded wait ran past its deadline.
    Timeout,
    /// The transport or the device answered in time, with a failure; the text is its cause.
    Protocol(String),
    /// Quantity and values do not have the shape that the function code asks for.
    InvalidArgument,
    /// The function code is not one that the entry point serves.
    UnsupportedFunction(u8),
    /// The endpoint could not be resolved, or the session could not be opened or closed.
    Connection(String),
}

} // verus!
