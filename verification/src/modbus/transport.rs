//! What the client and its driver say to each other: the calls that the
//! client asks for, and the outcomes that the driver reports.

use vstd::prelude::*;

verus! {

/// Seconds that the driver waits for a session to be established.
pub const CONNECT_TIMEOUT_SECS: u64 = 5;

/// Seconds that the driver waits for the answer to a read, discrete inputs excepted.
pub const READ_TIMEOUT_SECS: u64 = 5;

/// Seconds that the driver waits for the answer to a read of discrete inputs.
pub const DISCRETE_INPUT_TIMEOUT_SECS: u64 = 1;

/// Seconds that the driver waits for the answer to a write.
pub const WRITE_TIMEOUT_SECS: u64 = 5;

/// The four classes of data that can be read.
#[derive(Debug, Clone, Copy, PartialEq, Eq, Structural)]
pub enum ReadSource {
    Coils,
    DiscreteInputs,
    HoldingRegisters,
    InputRegisters,
}

impl ReadSource {
    /// The wait that a read of this class is bounded by, in seconds.
    pub open spec fn timeout(self) -> u64 {
        if self == ReadSource::DiscreteInputs {
            DISCRETE_INPUT_TIMEOUT_SECS
        } else {
            READ_TIMEOUT_SECS
        }
    }

    /// The wait that a read of this class is bounded by, in seconds.
    pub fn timeout_secs(self) -> (secs: u64)
        ensures
            secs == self.timeout(),
    {
        match self {
            ReadSource::DiscreteInputs => DISCRETE_INPUT_TIMEOUT_SECS,
            _ => READ_TIMEOUT_SECS,
        }
    }
}

/// What the driver has to do to open a session.
#[derive(Debug, Clone, PartialEq, Eq)]
pub struct ConnectCall {
    /// Host or IP address of the gateway.
    pub ip: String,
    pub port: u16,
    /// The station that the session is bound to.
    pub slave_id: u8,
    /// The attempt is given up after this many seconds.
    pub timeout_secs: u64,
}

/// One read that the driver has to make on the open session.
#[derive(Debug, Clone, Copy, PartialEq, Eq, Structural)]
pub struct ReadCall {
    pub source: ReadSource,
    /// Offset of the first element.
    pub address: u16,
    /// Number of elements.
    pub quantity: u16,
    /// The wait is given up after this many seconds.
    pub timeout_secs: u64,
}

/// What a completed read brought back: bits from coils and discrete inputs,
/// words from registers.
#[derive(Debug, Clone, PartialEq, Eq)]
pub enum ReadReply {
    Bits(Vec<bool>),
    Words(Vec<u16>),
}

/// What a write sends, which also says which of the four writes it is.
#[derive(Debug, Clone, PartialEq, Eq)]
pub enum WritePayload {
    /// Write single coil.
    Coil(bool),
    /// Write single register.
    Register(u16),
    /// Write multiple coils.
    Coils(Vec<bool>),
    /// Write multiple registers.
    Registers(Vec<u16>),
}

/// One write that the driver has to make on the open session.
#[derive(Debug, Clone, PartialEq, Eq)]
pub struct WriteCall {
    /// Offset of the first element.
    pub address: u16,
    pub payload: WritePayload,
    /// The wait is given up after this many seconds.
    pub timeout_secs: u64,
}

/// `WritePayload` with sequences in place of vectors.
pub enum WritePayloadView {
    Coil(bool),
    Register(u16),
    Coils(Seq<bool>),
    Registers(Seq<u16>),
}

/// `WriteCall` with sequences in place of vectors.
pub struct WriteCallView {
    pub address: u16,
    pub payload: WritePayloadView,
    pub timeout_secs: u64,
}

impl View for WritePayload {
    type V = WritePayloadView;

    open spec fn view(&self) -> WritePayloadView {
        match *self {
            WritePayload::Coil(state) => WritePayloadView::Coil(state),
            WritePayload::Register(word) => WritePayloadView::Register(word),
            WritePayload::Coils(states) => WritePayloadView::Coils(states@),
            WritePayload::Registers(words) => WritePayloadView::Registers(words@),
        }
    }
}

impl View for WriteCall {
    type V = WriteCallView;

    open spec fn view(&self) -> WriteCallView {
        WriteCallView {
            address: self.address,
            payload: self.payload@,
            timeout_secs: self.timeout_secs,
        }
    }
}

/// How a call that the driver raced against a deadline ended.
#[derive(Debug, Clone, PartialEq, Eq)]
pub enum TransportOutcome<T> {
    /// The transport answered in time and reported success.
    Completed(T),
    /// The transport or the device answered in time and reported a failure.
    Failed(String),
    /// The deadline passed first.
    TimedOut,
}

/// How the orderly close of a session ended. A close is not raced against a deadline.
#[derive(Debug, Clone, PartialEq, Eq)]
pub enum CloseOutcome {
    Closed,
    Failed(String),
}

} // verus!
