//! The visit that the driver pays to one endpoint: connect, let the session
//! settle, read input registers, read holding registers, write coils,
//! disconnect. An endpoint that cannot be connected to is left at once; a read
//! or write that fails is reported and the visit goes on.

use crate::modbus::client::{connect_result, connected_after_connect, read_plan, write_plan};
use crate::modbus::coil::coil_states_of;
use crate::modbus::error::ModbusError;
use crate::modbus::transport::{
    ReadCall, ReadSource, TransportOutcome, WriteCallView, WritePayloadView,
};
use vstd::prelude::*;

verus! {

/// Milliseconds between a successful connect and the first operation.
pub const SETTLE_PAUSE_MILLIS: u64 = 100;

/// Offset at which the operations of a visit start.
pub const VISIT_ADDRESS: u16 = 0;

/// Number of elements that each operation of a visit reads or writes.
pub const VISIT_QUANTITY: u16 = 4;

/// Where a visit stands.
#[derive(Debug, Clone, Copy, PartialEq, Eq, Structural)]
pub enum SessionStep {
    Connect,
    Settle,
    ReadInputRegisters,
    ReadHoldingRegisters,
    WriteCoils,
    Disconnect,
    Done,
}

/// What the driver has to do at a step.
#[derive(Debug, Clone, PartialEq, Eq)]
pub enum SessionAction {
    /// Connect the client to the endpoint.
    Connect,
    /// Wait before the first operation.
    Pause { millis: u64 },
    /// Read through the client.
    Read { function_code: u8, address: u16, quantity: u16 },
    /// Write through the client.
    Write { function_code: u8, address: u16, quantity: u16, values: Vec<u16> },
    /// Disconnect the client.
    Disconnect,
    /// Nothing is left to do at this endpoint.
    Leave,
}

/// `SessionAction` with a sequence in place of the vector.
pub enum SessionActionView {
    Connect,
    Pause { millis: u64 },
    Read { function_code: u8, address: u16, quantity: u16 },
    Write { function_code: u8, address: u16, quantity: u16, values: Seq<u16> },
    Disconnect,
    Leave,
}

impl View for SessionAction {
    type V = SessionActionView;

    open spec fn view(&self) -> SessionActionView {
        match *self {
            SessionAction::Connect => SessionActionView::Connect,
            SessionAction::Pause { millis } => SessionActionView::Pause { millis },
            SessionAction::Read { function_code, address, quantity } => SessionActionView::Read {
                function_code,
                address,
                quantity,
            },
            SessionAction::Write {
                function_code,
                address,
                quantity,
                values,
            } => SessionActionView::Write { function_code, address, quantity, values: values@ },
            SessionAction::Disconnect => SessionActionView::Disconnect,
            SessionAction::Leave => SessionActionView::Leave,
        }
    }
}

impl SessionStep {
    /// The action of a step.
    pub open spec fn action_of(self) -> SessionActionView {
        match self {
            SessionStep::Connect => SessionActionView::Connect,
            SessionStep::Settle => SessionActionView::Pause { millis: SETTLE_PAUSE_MILLIS },
            SessionStep::ReadInputRegisters => SessionActionView::Read {
                function_code: 0x04,
                address: VISIT_ADDRESS,
                quantity: VISIT_QUANTITY,
            },
            SessionStep::ReadHoldingRegisters => SessionActionView::Read {
                function_code: 0x03,
                address: VISIT_ADDRESS,
                quantity: VISIT_QUANTITY,
            },
            SessionStep::WriteCoils => SessionActionView::Write {
                function_code: 0x0F,
                address: VISIT_ADDRESS,
                quantity: VISIT_QUANTITY,
                values: seq![1u16, 1u16, 1u16, 1u16],
            },
            SessionStep::Disconnect => SessionActionView::Disconnect,
            SessionStep::Done => SessionActionView::Leave,
        }
    }

    /// The step that follows, given whether the action of this one succeeded.
    /// Only a failed connect changes the course of a visit.
    pub open spec fn successor(self, succeeded: bool) -> SessionStep {
        match self {
            SessionStep::Connect => if succeeded {
                SessionStep::Settle
            } else {
                SessionStep::Done
            },
            SessionStep::Settle => SessionStep::ReadInputRegisters,
            SessionStep::ReadInputRegisters => SessionStep::ReadHoldingRegisters,
            SessionStep::ReadHoldingRegisters => SessionStep::WriteCoils,
            SessionStep::WriteCoils => SessionStep::Disconnect,
            SessionStep::Disconnect => SessionStep::Done,
            SessionStep::Done => SessionStep::Done,
        }
    }

    /// The number of actions that a visit at this step has yet to take, at most.
    pub open spec fn remaining(self) -> nat {
        match self {
            SessionStep::Connect => 6,
            SessionStep::Settle => 5,
            SessionStep::ReadInputRegisters => 4,
            SessionStep::ReadHoldingRegisters => 3,
            SessionStep::WriteCoils => 2,
            SessionStep::Disconnect => 1,
            SessionStep::Done => 0,
        }
    }

    /// Whether the client is connected while a visit stands at this step.
    pub open spec fn holds_session(self) -> bool {
        self != SessionStep::Connect && self != SessionStep::Done
    }

    /// The step at which every visit starts.
    pub fn first() -> (step: SessionStep)
        ensures
            step == SessionStep::Connect,
    {
        SessionStep::Connect
    }

    /// What the driver has to do at this step.
    pub fn action(self) -> (action: SessionAction)
        ensures
            action@ == self.action_of(),
    {
        match self {
            SessionStep::Connect => SessionAction::Connect,
            SessionStep::Settle => SessionAction::Pause { millis: SETTLE_PAUSE_MILLIS },
            SessionStep::ReadInputRegisters => SessionAction::Read {
                function_code: 0x04,
                address: VISIT_ADDRESS,
                quantity: VISIT_QUANTITY,
            },
            SessionStep::ReadHoldingRegisters => SessionAction::Read {
                function_code: 0x03,
                address: VISIT_ADDRESS,
                quantity: VISIT_QUANTITY,
            },
            SessionStep::WriteCoils => SessionAction::Write {
                function_code: 0x0F,
                address: VISIT_ADDRESS,
                quantity: VISIT_QUANTITY,
                values: vec![1u16, 1u16, 1u16, 1u16],
            },
            SessionStep::Disconnect => SessionAction::Disconnect,
            SessionStep::Done => SessionAction::Leave,
        }
    }

    /// The step that follows, given whether the action of this one succeeded.
    pub fn next(self, succeeded: bool) -> (step: SessionStep)
        ensures
            step == self.successor(succeeded),
    {
        match self {
            SessionStep::Connect => if succeeded {
                SessionStep::Settle
            } else {
                SessionStep::Done
            },
            SessionStep::Settle => SessionStep::ReadInputRegisters,
            SessionStep::ReadInputRegisters => SessionStep::ReadHoldingRegisters,
            SessionStep::ReadHoldingRegisters => SessionStep::WriteCoils,
            SessionStep::WriteCoils => SessionStep::Disconnect,
            SessionStep::Disconnect => SessionStep::Done,
            SessionStep::Done => SessionStep::Done,
        }
    }
}

/// Every step but the last brings a visit nearer to its end, so that a visit
/// takes six actions at most.
pub proof fn visit_ends(step: SessionStep, succeeded: bool)
    ensures
        step != SessionStep::Done ==> step.successor(succeeded).remaining() < step.remaining(),
        step.remaining() <= 6,
        step.remaining() == 0 <==> step == SessionStep::Done,
{
}

/// A visit that starts with a client that is not connected keeps step with
/// it: the client is connected exactly while the visit holds a session. The
/// session is taken by a connect that succeeds, kept whatever fails in between,
/// and given up by the disconnect, so that a visit never leaves an endpoint
/// with the client still connected.
pub proof fn visit_keeps_step_with_client(
    step: SessionStep,
    connected: bool,
    connect_outcome: TransportOutcome<()>,
    succeeded: bool,
)
    requires
        step.holds_session() == connected,
    ensures
        !SessionStep::Connect.holds_session(),
        step == SessionStep::Connect ==> step.successor(
            connect_result(connect_outcome) is Ok,
        ).holds_session() == connected_after_connect(connected, connect_outcome),
        step == SessionStep::Disconnect ==> !step.successor(succeeded).holds_session(),
        step != SessionStep::Connect && step != SessionStep::Disconnect ==> step.successor(
            succeeded,
        ).holds_session() == connected,
        step.successor(succeeded) == SessionStep::Done ==> step == SessionStep::Done || step
            == SessionStep::Disconnect || (step == SessionStep::Connect && !succeeded),
{
}

/// On a connected client each operation of a visit passes validation: the
/// reads go to input registers and to holding registers, and the write switches
/// four coils on.
pub proof fn visit_operations_are_valid()
    ensures
        SessionStep::ReadInputRegisters.action_of() matches SessionActionView::Read {
            function_code,
            address,
            quantity,
        } && read_plan(true, function_code, address, quantity) == Ok::<ReadCall, ModbusError>(
            ReadCall { source: ReadSource::InputRegisters, address: 0, quantity: 4, timeout_secs: 5 },
        ),
        SessionStep::ReadHoldingRegisters.action_of() matches SessionActionView::Read {
            function_code,
            address,
            quantity,
        } && read_plan(true, function_code, address, quantity) == Ok::<ReadCall, ModbusError>(
            ReadCall { source: ReadSource::HoldingRegisters, address: 0, quantity: 4, timeout_secs: 5 },
        ),
        SessionStep::WriteCoils.action_of() matches SessionActionView::Write {
            function_code,
            address,
            quantity,
            values,
        } && write_plan(true, function_code, address, quantity, values) == Ok::<
            WriteCallView,
            ModbusError,
        >(
            WriteCallView {
                address: 0,
                payload: WritePayloadView::Coils(seq![true, true, true, true]),
                timeout_secs: 5,
            },
        ),
{
    assert(coil_states_of(seq![1u16, 1u16, 1u16, 1u16]) =~= seq![true, true, true, true]);
}

} // verus!
