//! Function codes as a closed set of operations.

use vstd::prelude::*;

verus! {

/// The operations that a function code can select, and one variant for every
/// code that selects none.
#[derive(Debug, Clone, Copy, PartialEq, Eq, Structural)]
pub enum FunctionCode {
    /// 0x01
    ReadCoils,
    /// 0x02
    ReadDiscreteInputs,
    /// 0x03
    ReadHoldingRegisters,
    /// 0x04
    ReadInputRegisters,
    /// 0x05
    WriteSingleCoil,
    /// 0x06
    WriteSingleRegister,
    /// 0x0F
    WriteMultipleCoils,
    /// 0x10
    WriteMultipleRegisters,
    /// Any other code.
    Unsupported,
}

impl FunctionCode {
    /// The operation that `code` selects.
    pub open spec fn of(code: u8) -> FunctionCode {
        if code == 0x01 {
            FunctionCode::ReadCoils
        } else if code == 0x02 {
            FunctionCode::ReadDiscreteInputs
        } else if code == 0x03 {
            FunctionCode::ReadHoldingRegisters
        } else if code == 0x04 {
            FunctionCode::ReadInputRegisters
        } else if code == 0x05 {
            FunctionCode::WriteSingleCoil
        } else if code == 0x06 {
            FunctionCode::WriteSingleRegister
        } else if code == 0x0F {
            FunctionCode::WriteMultipleCoils
        } else if code == 0x10 {
            FunctionCode::WriteMultipleRegisters
        } else {
            FunctionCode::Unsupported
        }
    }

    /// Classifies a raw function code.
    pub fn from_code(code: u8) -> (function: FunctionCode)
        ensures
            function == FunctionCode::of(code),
    {
        match code {
            0x01 => FunctionCode::ReadCoils,
            0x02 => FunctionCode::ReadDiscreteInputs,
            0x03 => FunctionCode::ReadHoldingRegisters,
            0x04 => FunctionCode::ReadInputRegisters,
            0x05 => FunctionCode::WriteSingleCoil,
            0x06 => FunctionCode::WriteSingleRegister,
            0x0F => FunctionCode::WriteMultipleCoils,
            0x10 => FunctionCode::WriteMultipleRegisters,
            _ => FunctionCode::Unsupported,
        }
    }
}

} // verus!
