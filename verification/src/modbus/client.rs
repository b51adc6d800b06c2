//! The client: connection lifecycle, dispatch by function code, validation
//! of arguments and shaping of results.

use crate::modbus::coil::{coil_state, coil_state_of, coil_states, coil_states_of, widen_bits, widened};
use crate::modbus::error::ModbusError;
use crate::modbus::function::FunctionCode;
use crate::modbus::transport::{
    CloseOutcome, ConnectCall, ReadCall, ReadReply, ReadSource, TransportOutcome, WriteCall,
    WriteCallView, WritePayload, WritePayloadView, CONNECT_TIMEOUT_SECS, WRITE_TIMEOUT_SECS,
};
use vstd::prelude::*;

verus! {

/// One endpoint: a gateway's address and the station behind it.
#[derive(Debug, Clone, PartialEq, Eq)]
pub struct ModbusDevice {
    /// Host or IP address of the gateway.
    pub ip: String,
    /// TCP port of the gateway, 502 by convention. Any value is passed on.
    pub port: u16,
    /// The station behind the gateway, 1 to 247 by convention. Any value is passed on.
    pub slave_id: u8,
}

/// The class of data that a function code reads, if it is one of the four read codes.
pub open spec fn read_source_of(function_code: u8) -> Option<ReadSource> {
    match FunctionCode::of(function_code) {
        FunctionCode::ReadCoils => Some(ReadSource::Coils),
        FunctionCode::ReadDiscreteInputs => Some(ReadSource::DiscreteInputs),
        FunctionCode::ReadHoldingRegisters => Some(ReadSource::HoldingRegisters),
        FunctionCode::ReadInputRegisters => Some(ReadSource::InputRegisters),
        _ => None,
    }
}

/// What a read asks of the transport, or the error that ends it before any call is made.
pub open spec fn read_plan(connected: bool, function_code: u8, address: u16, quantity: u16) -> Result<
    ReadCall,
    ModbusError,
> {
    if !connected {
        Err(ModbusError::NotConnected)
    } else {
        match read_source_of(function_code) {
            Some(source) => Ok(ReadCall { source, address, quantity, timeout_secs: source.timeout() }),
            None => Err(ModbusError::UnsupportedFunction(function_code)),
        }
    }
}

/// What a read returns for an outcome of its call: bits widened, words as they
/// came. The class of the reply decides which, not the code of the read: the
/// driver hands in what the call it was asked to make brought back.
pub open spec fn read_shape(outcome: TransportOutcome<ReadReply>) -> Result<Seq<u16>, ModbusError> {
    match outcome {
        TransportOutcome::Completed(ReadReply::Bits(bits)) => Ok(widened(bits@)),
        TransportOutcome::Completed(ReadReply::Words(words)) => Ok(words@),
        TransportOutcome::Failed(cause) => Err(ModbusError::Protocol(cause)),
        TransportOutcome::TimedOut => Err(ModbusError::Timeout),
    }
}

/// What a read returns: the error of its plan where there is one, else the shaped outcome.
pub open spec fn read_result(
    connected: bool,
    function_code: u8,
    address: u16,
    quantity: u16,
    outcome: TransportOutcome<ReadReply>,
) -> Result<Seq<u16>, ModbusError> {
    match read_plan(connected, function_code, address, quantity) {
        Err(e) => Err(e),
        Ok(_) => read_shape(outcome),
    }
}

/// A result of words with the sequence in place of the vector.
pub open spec fn words_of(res: Result<Vec<u16>, ModbusError>) -> Result<Seq<u16>, ModbusError> {
    match res {
        Ok(words) => Ok(words@),
        Err(e) => Err(e),
    }
}

/// What a write asks of the transport, or the error that ends it before any
/// call is made. A single write takes a quantity of 1 and sends the first
/// value, so that there has to be one; a multiple write takes as many values as
/// its quantity says.
pub open spec fn write_plan(
    connected: bool,
    function_code: u8,
    address: u16,
    quantity: u16,
    values: Seq<u16>,
) -> Result<WriteCallView, ModbusError> {
    if !connected {
        Err(ModbusError::NotConnected)
    } else {
        match FunctionCode::of(function_code) {
            FunctionCode::WriteSingleCoil => if quantity == 1 && values.len() >= 1 {
                Ok(
                    WriteCallView {
                        address,
                        payload: WritePayloadView::Coil(coil_state_of(values[0])),
                        timeout_secs: WRITE_TIMEOUT_SECS,
                    },
                )
            } else {
                Err(ModbusError::InvalidArgument)
            },
            FunctionCode::WriteSingleRegister => if quantity == 1 && values.len() >= 1 {
                Ok(
                    WriteCallView {
                        address,
                        payload: WritePayloadView::Register(values[0]),
                        timeout_secs: WRITE_TIMEOUT_SECS,
                    },
                )
            } else {
                Err(ModbusError::InvalidArgument)
            },
            FunctionCode::WriteMultipleCoils => if values.len() == quantity {
                Ok(
                    WriteCallView {
                        address,
                        payload: WritePayloadView::Coils(coil_states_of(values)),
                        timeout_secs: WRITE_TIMEOUT_SECS,
                    },
                )
            } else {
                Err(ModbusError::InvalidArgument)
            },
            FunctionCode::WriteMultipleRegisters => if values.len() == quantity {
                Ok(
                    WriteCallView {
                        address,
                        payload: WritePayloadView::Registers(values),
                        timeout_secs: WRITE_TIMEOUT_SECS,
                    },
                )
            } else {
                Err(ModbusError::InvalidArgument)
            },
            _ => Err(ModbusError::UnsupportedFunction(function_code)),
        }
    }
}

/// What a write returns for an outcome of its call.
pub open spec fn write_shape(outcome: TransportOutcome<()>) -> Result<(), ModbusError> {
    match outcome {
        TransportOutcome::Completed(_) => Ok(()),
        TransportOutcome::Failed(cause) => Err(ModbusError::Protocol(cause)),
        TransportOutcome::TimedOut => Err(ModbusError::Timeout),
    }
}

/// What a write returns: the error of its plan where there is one, else the shaped outcome.
pub open spec fn write_result(
    connected: bool,
    function_code: u8,
    address: u16,
    quantity: u16,
    values: Seq<u16>,
    outcome: TransportOutcome<()>,
) -> Result<(), ModbusError> {
    match write_plan(connected, function_code, address, quantity, values) {
        Err(e) => Err(e),
        Ok(_) => write_shape(outcome),
    }
}

/// A result of a write call with its view in place of the call.
pub open spec fn call_of(res: Result<WriteCall, ModbusError>) -> Result<WriteCallView, ModbusError> {
    match res {
        Ok(call) => Ok(call@),
        Err(e) => Err(e),
    }
}

/// What `connect` returns for an outcome of the attempt.
pub open spec fn connect_result(outcome: TransportOutcome<()>) -> Result<(), ModbusError> {
    match outcome {
        TransportOutcome::Completed(_) => Ok(()),
        TransportOutcome::Failed(cause) => Err(ModbusError::Connection(cause)),
        TransportOutcome::TimedOut => Err(ModbusError::Timeout),
    }
}

/// Whether the client is connected after `connect`: a failed attempt changes nothing.
pub open spec fn connected_after_connect(connected: bool, outcome: TransportOutcome<()>) -> bool {
    connected || outcome is Completed
}

/// What `disconnect` returns. Without a context nothing was closed and nothing
/// can have failed. A close that failed is a failure of the connection, not of
/// the protocol: no device answered.
pub open spec fn disconnect_result(connected: bool, outcome: CloseOutcome) -> Result<(), ModbusError> {
    if !connected {
        Ok(())
    } else {
        match outcome {
            CloseOutcome::Closed => Ok(()),
            CloseOutcome::Failed(cause) => Err(ModbusError::Connection(cause)),
        }
    }
}

/// Shapes the outcome of a read call into what the read returns.
pub fn shape_read(outcome: TransportOutcome<ReadReply>) -> (res: Result<Vec<u16>, ModbusError>)
    ensures
        words_of(res) == read_shape(outcome),
{
    match outcome {
        TransportOutcome::Completed(ReadReply::Bits(bits)) => Ok(widen_bits(&bits)),
        TransportOutcome::Completed(ReadReply::Words(words)) => Ok(words),
        TransportOutcome::Failed(cause) => Err(ModbusError::Protocol(cause)),
        TransportOutcome::TimedOut => Err(ModbusError::Timeout),
    }
}

/// Shapes the outcome of a write call into what the write returns.
pub fn shape_write(outcome: TransportOutcome<()>) -> (res: Result<(), ModbusError>)
    ensures
        res == write_shape(outcome),
{
    match outcome {
        TransportOutcome::Completed(_) => Ok(()),
        TransportOutcome::Failed(cause) => Err(ModbusError::Protocol(cause)),
        TransportOutcome::TimedOut => Err(ModbusError::Timeout),
    }
}

/// The operations of a connected client. Each comes as a pair: the function
/// whose name ends in `_request` says what the driver has to ask of the
/// transport, and its partner takes the outcome of that call and says what the
/// operation returns.
///
/// A read or a write never changes the client: after a failure or a timeout it
/// is as connected as before. Whether a session can still be used after a
/// timeout is for the transport to say; to disconnect and connect again is the
/// safe course.
pub trait ModbusOperation {
    /// Whether the client holds a transport context.
    spec fn connected(&self) -> bool;

    /// The call that a read makes, with its deadline. An error means that the
    /// read ends without any call.
    fn read_request(&self, function_code: u8, address: u16, quantity: u16) -> (res: Result<
        ReadCall,
        ModbusError,
    >)
        ensures
            res == read_plan(self.connected(), function_code, address, quantity),
    ;

    /// What the read returns, given the outcome of its call. Where the read ends
    /// without a call, the outcome is not looked at.
    fn read_registers(
        &self,
        function_code: u8,
        address: u16,
        quantity: u16,
        outcome: TransportOutcome<ReadReply>,
    ) -> (res: Result<Vec<u16>, ModbusError>)
        ensures
            words_of(res) == read_result(
                self.connected(),
                function_code,
                address,
                quantity,
                outcome,
            ),
    ;

    /// The call that a write makes, with its deadline. An error means that the
    /// write ends without any call.
    fn write_request(&self, function_code: u8, address: u16, quantity: u16, values: &Vec<u16>) -> (res:
        Result<WriteCall, ModbusError>)
        ensures
            call_of(res) == write_plan(self.connected(), function_code, address, quantity, values@),
    ;

    /// What the write returns, given the outcome of its call. Where the write
    /// ends without a call, the outcome is not looked at.
    fn write_registers(
        &self,
        function_code: u8,
        address: u16,
        quantity: u16,
        values: &Vec<u16>,
        outcome: TransportOutcome<()>,
    ) -> (res: Result<(), ModbusError>)
        ensures
            res == write_result(
                self.connected(),
                function_code,
                address,
                quantity,
                values@,
                outcome,
            ),
    ;

    /// Whether there is a session for the driver to close.
    fn disconnect_request(&self) -> (close: bool)
        ensures
            close == self.connected(),
    ;

    /// Releases the context, however the close ended. Without a context this
    /// succeeds and the outcome is not looked at.
    fn disconnect(&mut self, outcome: CloseOutcome) -> (res: Result<(), ModbusError>)
        ensures
            !final(self).connected(),
            res == disconnect_result(old(self).connected(), outcome),
    ;
}

/// The state of one client: its endpoint, and whether it holds a transport
/// context. The context itself stays with the driver.
#[derive(Debug, PartialEq, Eq)]
pub struct ModbusClient {
    device: ModbusDevice,
    connected: bool,
}

impl ModbusClient {
    /// The endpoint that the client was made for.
    pub closed spec fn endpoint(&self) -> ModbusDevice {
        self.device
    }

    /// A client for `device`, not yet connected.
    pub fn new(device: ModbusDevice) -> (client: Self)
        ensures
            client.endpoint() == device,
            !client.connected(),
    {
        ModbusClient { device, connected: false }
    }

    /// The endpoint that the client was made for.
    pub fn device(&self) -> (device: &ModbusDevice)
        ensures
            *device == self.endpoint(),
    {
        &self.device
    }

    /// Whether the client holds a transport context.
    pub fn is_connected(&self) -> (connected: bool)
        ensures
            connected == self.connected(),
    {
        self.connected
    }

    /// The session that `connect` asks the driver to open, and how long to wait for it.
    pub fn connect_request(&self) -> (call: ConnectCall)
        ensures
            call.ip == self.endpoint().ip,
            call.port == self.endpoint().port,
            call.slave_id == self.endpoint().slave_id,
            call.timeout_secs == CONNECT_TIMEOUT_SECS,
    {
        ConnectCall {
            ip: self.device.ip.clone(),
            port: self.device.port,
            slave_id: self.device.slave_id,
            timeout_secs: CONNECT_TIMEOUT_SECS,
        }
    }

    /// Takes the outcome of the attempt to open a session. Only an established
    /// session changes the client.
    pub fn connect(&mut self, outcome: TransportOutcome<()>) -> (res: Result<(), ModbusError>)
        ensures
            final(self).endpoint() == old(self).endpoint(),
            final(self).connected() == connected_after_connect(old(self).connected(), outcome),
            res == connect_result(outcome),
    {
        match outcome {
            TransportOutcome::Completed(_) => {
                self.connected = true;
                Ok(())
            },
            TransportOutcome::Failed(cause) => Err(ModbusError::Connection(cause)),
            TransportOutcome::TimedOut => Err(ModbusError::Timeout),
        }
    }
}

impl ModbusOperation for ModbusClient {
    closed spec fn connected(&self) -> bool {
        self.connected
    }

    fn read_request(&self, function_code: u8, address: u16, quantity: u16) -> (res: Result<
        ReadCall,
        ModbusError,
    >) {
        if !self.connected {
            return Err(ModbusError::NotConnected);
        }
        let source = match FunctionCode::from_code(function_code) {
            FunctionCode::ReadCoils => ReadSource::Coils,
            FunctionCode::ReadDiscreteInputs => ReadSource::DiscreteInputs,
            FunctionCode::ReadHoldingRegisters => ReadSource::HoldingRegisters,
            FunctionCode::ReadInputRegisters => ReadSource::InputRegisters,
            _ => {
                return Err(ModbusError::UnsupportedFunction(function_code));
            },
        };
        Ok(ReadCall { source, address, quantity, timeout_secs: source.timeout_secs() })
    }

    fn read_registers(
        &self,
        function_code: u8,
        address: u16,
        quantity: u16,
        outcome: TransportOutcome<ReadReply>,
    ) -> (res: Result<Vec<u16>, ModbusError>) {
        match self.read_request(function_code, address, quantity) {
            Err(e) => Err(e),
            Ok(_) => shape_read(outcome),
        }
    }

    fn write_request(&self, function_code: u8, address: u16, quantity: u16, values: &Vec<u16>) -> (res:
        Result<WriteCall, ModbusError>) {
        if !self.connected {
            return Err(ModbusError::NotConnected);
        }
        let payload = match FunctionCode::from_code(function_code) {
            FunctionCode::WriteSingleCoil => {
                if quantity != 1 || values.len() < 1 {
                    return Err(ModbusError::InvalidArgument);
                }
                WritePayload::Coil(coil_state(values[0]))
            },
            FunctionCode::WriteSingleRegister => {
                if quantity != 1 || values.len() < 1 {
                    return Err(ModbusError::InvalidArgument);
                }
                WritePayload::Register(values[0])
            },
            FunctionCode::WriteMultipleCoils => {
                if values.len() != quantity as usize {
                    return Err(ModbusError::InvalidArgument);
                }
                WritePayload::Coils(coil_states(values))
            },
            FunctionCode::WriteMultipleRegisters => {
                if values.len() != quantity as usize {
                    return Err(ModbusError::InvalidArgument);
                }
                WritePayload::Registers(values.clone())
            },
            _ => {
                return Err(ModbusError::UnsupportedFunction(function_code));
            },
        };
        Ok(WriteCall { address, payload, timeout_secs: WRITE_TIMEOUT_SECS })
    }

    fn write_registers(
        &self,
        function_code: u8,
        address: u16,
        quantity: u16,
        values: &Vec<u16>,
        outcome: TransportOutcome<()>,
    ) -> (res: Result<(), ModbusError>) {
        match self.write_request(function_code, address, quantity, values) {
            Err(e) => Err(e),
            Ok(_) => shape_write(outcome),
        }
    }

    fn disconnect_request(&self) -> (close: bool) {
        self.connected
    }

    fn disconnect(&mut self, outcome: CloseOutcome) -> (res: Result<(), ModbusError>)
        ensures
            final(self).endpoint() == old(self).endpoint(),
    {
        if !self.connected {
            return Ok(());
        }
        self.connected = false;
        match outcome {
            CloseOutcome::Closed => Ok(()),
            CloseOutcome::Failed(cause) => Err(ModbusError::Connection(cause)),
        }
    }
}

} // verus!
