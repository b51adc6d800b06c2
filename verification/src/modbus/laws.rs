//! What holds of the client's operations taken together.

use crate::modbus::client::{
    connect_result, connected_after_connect, disconnect_result, read_plan, read_result,
    write_plan, write_result, ModbusClient, ModbusOperation,
};
use crate::modbus::coil::{coil_state_of, coil_states_of, widened};
use crate::modbus::error::ModbusError;
use crate::modbus::function::FunctionCode;
use crate::modbus::transport::{
    CloseOutcome, ReadCall, ReadReply, ReadSource, TransportOutcome, WriteCallView,
    WritePayloadView,
};
use vstd::assert_by_contradiction;
use vstd::prelude::*;

verus! {

/// Two codes that select the same operation are the same code, unless they select none.
pub proof fn distinct_codes_select_distinct_operations(a: u8, b: u8)
    requires
        FunctionCode::of(a) == FunctionCode::of(b),
        FunctionCode::of(a) != FunctionCode::Unsupported,
    ensures
        a == b,
{
}

/// A connected client routes each of the four read codes to its own class of
/// data, with the address and quantity it was given and a wait of five seconds,
/// one second for discrete inputs. Any other code ends the read with
/// `UnsupportedFunction` and without a call, whatever the transport would have
/// answered.
pub proof fn read_dispatch_is_complete(
    client: ModbusClient,
    function_code: u8,
    address: u16,
    quantity: u16,
    outcome: TransportOutcome<ReadReply>,
)
    requires
        client.connected(),
    ensures
        function_code == 0x01 ==> read_plan(client.connected(), function_code, address, quantity)
            == Ok::<ReadCall, ModbusError>(
            ReadCall { source: ReadSource::Coils, address, quantity, timeout_secs: 5 },
        ),
        function_code == 0x02 ==> read_plan(client.connected(), function_code, address, quantity)
            == Ok::<ReadCall, ModbusError>(
            ReadCall { source: ReadSource::DiscreteInputs, address, quantity, timeout_secs: 1 },
        ),
        function_code == 0x03 ==> read_plan(client.connected(), function_code, address, quantity)
            == Ok::<ReadCall, ModbusError>(
            ReadCall { source: ReadSource::HoldingRegisters, address, quantity, timeout_secs: 5 },
        ),
        function_code == 0x04 ==> read_plan(client.connected(), function_code, address, quantity)
            == Ok::<ReadCall, ModbusError>(
            ReadCall { source: ReadSource::InputRegisters, address, quantity, timeout_secs: 5 },
        ),
        !(0x01 <= function_code <= 0x04) ==> read_plan(
            client.connected(),
            function_code,
            address,
            quantity,
        ) == Err::<ReadCall, ModbusError>(ModbusError::UnsupportedFunction(function_code)),
        !(0x01 <= function_code <= 0x04) ==> read_result(
            client.connected(),
            function_code,
            address,
            quantity,
            outcome,
        ) == Err::<Seq<u16>, ModbusError>(ModbusError::UnsupportedFunction(function_code)),
{
}

/// On a connected client a single write with a quantity other than 1, and a
/// multiple write whose values are not as many as its quantity, end with
/// `InvalidArgument` and without a call, whatever the transport would have
/// answered.
pub proof fn write_validation_precedes_io(
    client: ModbusClient,
    function_code: u8,
    address: u16,
    quantity: u16,
    values: Seq<u16>,
    outcome: TransportOutcome<()>,
)
    requires
        client.connected(),
        ((function_code == 0x05 || function_code == 0x06) && quantity != 1) || ((function_code
            == 0x0F || function_code == 0x10) && values.len() != quantity),
    ensures
        write_plan(client.connected(), function_code, address, quantity, values) == Err::<
            WriteCallView,
            ModbusError,
        >(ModbusError::InvalidArgument),
        write_result(client.connected(), function_code, address, quantity, values, outcome)
            == Err::<(), ModbusError>(ModbusError::InvalidArgument),
{
}

/// On a connected client a single write that comes without a value ends with
/// `InvalidArgument` and without a call, whatever its quantity and whatever
/// the transport would have answered. With a quantity of 1 and a value it
/// sends the first value and looks at no other.
pub proof fn single_write_needs_its_value(
    client: ModbusClient,
    function_code: u8,
    address: u16,
    quantity: u16,
    values: Seq<u16>,
    outcome: TransportOutcome<()>,
)
    requires
        client.connected(),
        function_code == 0x05 || function_code == 0x06,
    ensures
        values.len() == 0 ==> write_plan(client.connected(), function_code, address, quantity, values)
            == Err::<WriteCallView, ModbusError>(ModbusError::InvalidArgument),
        values.len() == 0 ==> write_result(
            client.connected(),
            function_code,
            address,
            quantity,
            values,
            outcome,
        ) == Err::<(), ModbusError>(ModbusError::InvalidArgument),
        quantity == 1 && values.len() >= 1 ==> write_plan(
            client.connected(),
            function_code,
            address,
            quantity,
            values,
        ) == write_plan(client.connected(), function_code, address, quantity, values.take(1)),
        quantity == 1 && values.len() >= 1 && function_code == 0x06 ==> write_plan(
            client.connected(),
            function_code,
            address,
            quantity,
            values,
        ) == Ok::<WriteCallView, ModbusError>(
            WriteCallView { address, payload: WritePayloadView::Register(values[0]), timeout_secs: 5 },
        ),
{
}

/// A connected client hands any code that is not one of the four write codes
/// back as `UnsupportedFunction`, without a call.
pub proof fn write_dispatch_rejects_other_codes(
    client: ModbusClient,
    function_code: u8,
    address: u16,
    quantity: u16,
    values: Seq<u16>,
    outcome: TransportOutcome<()>,
)
    requires
        client.connected(),
        function_code != 0x05,
        function_code != 0x06,
        function_code != 0x0F,
        function_code != 0x10,
    ensures
        write_plan(client.connected(), function_code, address, quantity, values) == Err::<
            WriteCallView,
            ModbusError,
        >(ModbusError::UnsupportedFunction(function_code)),
        write_result(client.connected(), function_code, address, quantity, values, outcome)
            == Err::<(), ModbusError>(ModbusError::UnsupportedFunction(function_code)),
{
}

/// On a connected client a read of coils or of discrete inputs that brought
/// back bits returns as many words, in the same order, 1 where the bit is set
/// and 0 where it is not; mapping these words back to coil states gives the
/// bits again. A read of holding or of input registers returns the words that
/// it brought back, unchanged.
pub proof fn read_replies_are_normalized(
    client: ModbusClient,
    function_code: u8,
    address: u16,
    quantity: u16,
    bits: Vec<bool>,
    words: Vec<u16>,
)
    requires
        client.connected(),
    ensures
        function_code == 0x01 || function_code == 0x02 ==> read_result(
            client.connected(),
            function_code,
            address,
            quantity,
            TransportOutcome::Completed(ReadReply::Bits(bits)),
        ) == Ok::<Seq<u16>, ModbusError>(widened(bits@)),
        widened(bits@).len() == bits@.len(),
        forall|i: int|
            0 <= i < bits@.len() ==> #[trigger] widened(bits@)[i] == (if bits@[i] {
                1u16
            } else {
                0u16
            }),
        coil_states_of(widened(bits@)) == bits@,
        function_code == 0x03 || function_code == 0x04 ==> read_result(
            client.connected(),
            function_code,
            address,
            quantity,
            TransportOutcome::Completed(ReadReply::Words(words)),
        ) == Ok::<Seq<u16>, ModbusError>(words@),
{
    assert(coil_states_of(widened(bits@)) =~= bits@);
}

/// A coil write sends one state per value, in order: off for 0 and on for any
/// other value, so that values of 1 and above can no longer be told apart.
pub proof fn coil_writes_send_truthiness(
    client: ModbusClient,
    address: u16,
    quantity: u16,
    values: Seq<u16>,
)
    requires
        client.connected(),
    ensures
        quantity == 1 && values.len() >= 1 ==> write_plan(
            client.connected(),
            0x05,
            address,
            quantity,
            values,
        ) == Ok::<WriteCallView, ModbusError>(
            WriteCallView {
                address,
                payload: WritePayloadView::Coil(values[0] != 0),
                timeout_secs: 5,
            },
        ),
        values.len() == quantity ==> write_plan(client.connected(), 0x0F, address, quantity, values)
            == Ok::<WriteCallView, ModbusError>(
            WriteCallView {
                address,
                payload: WritePayloadView::Coils(coil_states_of(values)),
                timeout_secs: 5,
            },
        ),
        coil_states_of(values).len() == values.len(),
        forall|i: int|
            0 <= i < values.len() ==> #[trigger] coil_states_of(values)[i] == (values[i] != 0),
        forall|value: u16| value >= 1 ==> #[trigger] coil_state_of(value) == coil_state_of(1),
{
}

/// One change of a client's state: a `connect` or a `disconnect`, with the
/// outcome that it was handed.
pub enum Transition {
    Connect(TransportOutcome<()>),
    Disconnect(CloseOutcome),
}

impl Transition {
    /// Whether this is a `connect` that established a session.
    pub open spec fn establishes(self) -> bool {
        self matches Transition::Connect(outcome) && outcome is Completed
    }
}

/// Whether a client is connected that was made by `new` and then went through
/// `history`, oldest first. Reads and writes in between leave no trace: they
/// do not change the client.
pub open spec fn connected_after(history: Seq<Transition>) -> bool
    decreases history.len(),
{
    if history.len() == 0 {
        false
    } else {
        match history.last() {
            Transition::Connect(outcome) => connected_after_connect(
                connected_after(history.drop_last()),
                outcome,
            ),
            Transition::Disconnect(_) => false,
        }
    }
}

/// A client is connected exactly if some `connect` in its past established a
/// session and no `disconnect` came after it.
pub proof fn connected_since_last_established(history: Seq<Transition>)
    ensures
        connected_after(history) <==> exists|i: int|
            0 <= i < history.len() && #[trigger] history[i].establishes() && forall|j: int|
                i < j < history.len() ==> !(#[trigger] history[j] is Disconnect),
    decreases history.len(),
{
    if history.len() > 0 {
        let before = history.drop_last();
        let last = history.len() - 1;
        connected_since_last_established(before);
        if connected_after(history) {
            if history.last().establishes() {
                assert(history[last].establishes());
            } else {
                let i = choose|i: int|
                    0 <= i < before.len() && #[trigger] before[i].establishes() && forall|j: int|
                        i < j < before.len() ==> !(#[trigger] before[j] is Disconnect);
                assert(history[i].establishes());
                assert forall|j: int| i < j < history.len() implies !(#[trigger] history[j]
                    is Disconnect) by {
                    if j < last {
                        assert(before[j] == history[j]);
                    }
                }
            }
        } else {
            assert forall|i: int|
                0 <= i < history.len() && #[trigger] history[i].establishes() implies exists|
                j: int,
            |
                i < j < history.len() && #[trigger] history[j] is Disconnect by {
                if i < last {
                    assert(before[i] == history[i]);
                    if history.last() is Disconnect {
                        assert(history[last] is Disconnect);
                    } else {
                        assert(!connected_after(before));
                        let j = choose|j: int|
                            i < j < before.len() && #[trigger] before[j] is Disconnect;
                        assert(history[j] is Disconnect);
                    }
                } else {
                    assert(history[last] is Disconnect);
                }
            }
        }
    }
}

/// Before the first `connect` that establishes a session, and again after
/// every `disconnect`, each read and each write ends with `NotConnected` and
/// without a call, whatever its arguments and whatever the transport would
/// have answered.
pub proof fn operations_need_a_connection(
    history: Seq<Transition>,
    function_code: u8,
    address: u16,
    quantity: u16,
    values: Seq<u16>,
    read_outcome: TransportOutcome<ReadReply>,
    write_outcome: TransportOutcome<()>,
)
    requires
        forall|i: int|
            0 <= i < history.len() && #[trigger] history[i].establishes() ==> exists|j: int|
                i < j < history.len() && #[trigger] history[j] is Disconnect,
    ensures
        !connected_after(history),
        read_plan(connected_after(history), function_code, address, quantity) == Err::<
            ReadCall,
            ModbusError,
        >(ModbusError::NotConnected),
        read_result(connected_after(history), function_code, address, quantity, read_outcome)
            == Err::<Seq<u16>, ModbusError>(ModbusError::NotConnected),
        write_plan(connected_after(history), function_code, address, quantity, values) == Err::<
            WriteCallView,
            ModbusError,
        >(ModbusError::NotConnected),
        write_result(
            connected_after(history),
            function_code,
            address,
            quantity,
            values,
            write_outcome,
        ) == Err::<(), ModbusError>(ModbusError::NotConnected),
{
    connected_since_last_established(history);
    assert_by_contradiction!(!connected_after(history), {
        let i = choose|i: int|
            0 <= i < history.len() && #[trigger] history[i].establishes() && forall|j: int|
                i < j < history.len() ==> !(#[trigger] history[j] is Disconnect);
        let j = choose|j: int| i < j < history.len() && #[trigger] history[j] is Disconnect;
        assert(!(history[j] is Disconnect));
    });
}

/// A client is connected after `connect` exactly if it was connected before or
/// the session was established, and `connect` succeeds exactly if the session
/// was established: a failure and a timeout are told apart and leave the client
/// as it was.
pub proof fn connect_outcomes_are_exclusive(connected: bool, outcome: TransportOutcome<()>)
    ensures
        connect_result(outcome) is Ok <==> outcome is Completed,
        connect_result(outcome) == Err::<(), ModbusError>(ModbusError::Timeout)
            <==> outcome is TimedOut,
        outcome matches TransportOutcome::Failed(cause) ==> connect_result(outcome) == Err::<
            (),
            ModbusError,
        >(ModbusError::Connection(cause)),
        !(outcome is Completed) ==> connected_after_connect(connected, outcome) == connected,
        outcome is Completed ==> connected_after_connect(connected, outcome),
{
}

/// `disconnect` on a client without a context succeeds whatever outcome it is
/// handed; on a connected client it reports a failed close and nothing else.
pub proof fn disconnect_is_total(connected: bool, outcome: CloseOutcome)
    ensures
        !connected ==> disconnect_result(connected, outcome) == Ok::<(), ModbusError>(()),
        connected ==> (disconnect_result(connected, outcome) is Err <==> outcome is Failed),
{
}

} // verus!
