use modbus_supervisor::modbus::client::{ModbusClient, ModbusDevice, ModbusOperation};
use modbus_supervisor::modbus::transport::{CloseOutcome, ReadReply, TransportOutcome};
use modbus_supervisor::session::{
    SessionAction, SessionStep, SETTLE_PAUSE_MILLIS, VISIT_ADDRESS, VISIT_QUANTITY,
};

/// The actions of a whole visit, given how each of them ends.
fn visit(succeeds: impl Fn(&SessionAction) -> bool) -> Vec<SessionAction> {
    let mut actions = Vec::new();
    let mut step = SessionStep::first();
    loop {
        let action = step.action();
        if action == SessionAction::Leave {
            return actions;
        }
        let succeeded = succeeds(&action);
        actions.push(action);
        step = step.next(succeeded);
        assert!(actions.len() <= 6);
    }
}

fn full_visit() -> Vec<SessionAction> {
    vec![
        SessionAction::Connect,
        SessionAction::Pause { millis: 100 },
        SessionAction::Read { function_code: 0x04, address: 0, quantity: 4 },
        SessionAction::Read { function_code: 0x03, address: 0, quantity: 4 },
        SessionAction::Write { function_code: 0x0F, address: 0, quantity: 4, values: vec![1, 1, 1, 1] },
        SessionAction::Disconnect,
    ]
}

#[test]
fn visit_constants() {
    assert_eq!(SETTLE_PAUSE_MILLIS, 100);
    assert_eq!(VISIT_ADDRESS, 0);
    assert_eq!(VISIT_QUANTITY, 4);
}

#[test]
fn visit_starts_with_connect() {
    assert_eq!(SessionStep::first(), SessionStep::Connect);
    assert_eq!(SessionStep::first().action(), SessionAction::Connect);
}

#[test]
fn visit_runs_the_whole_sequence() {
    assert_eq!(visit(|_| true), full_visit());
}

#[test]
fn failed_connect_leaves_the_endpoint() {
    assert_eq!(visit(|_| false), vec![SessionAction::Connect]);
    assert_eq!(SessionStep::Connect.next(false), SessionStep::Done);
}

#[test]
fn failed_operations_do_not_end_the_visit() {
    assert_eq!(visit(|action| *action == SessionAction::Connect), full_visit());
    assert_eq!(visit(|action| !matches!(action, SessionAction::Read { .. })), full_visit());
    assert_eq!(visit(|action| !matches!(action, SessionAction::Write { .. })), full_visit());
    assert_eq!(visit(|action| *action != SessionAction::Disconnect), full_visit());
}

#[test]
fn steps_follow_each_other() {
    for succeeded in [true, false] {
        assert_eq!(SessionStep::Settle.next(succeeded), SessionStep::ReadInputRegisters);
        assert_eq!(SessionStep::ReadInputRegisters.next(succeeded), SessionStep::ReadHoldingRegisters);
        assert_eq!(SessionStep::ReadHoldingRegisters.next(succeeded), SessionStep::WriteCoils);
        assert_eq!(SessionStep::WriteCoils.next(succeeded), SessionStep::Disconnect);
        assert_eq!(SessionStep::Disconnect.next(succeeded), SessionStep::Done);
        assert_eq!(SessionStep::Done.next(succeeded), SessionStep::Done);
    }
    assert_eq!(SessionStep::Connect.next(true), SessionStep::Settle);
    assert_eq!(SessionStep::Done.action(), SessionAction::Leave);
}

#[test]
fn visit_drives_a_client_from_connect_to_disconnect() {
    let mut client = ModbusClient::new(ModbusDevice { ip: "192.168.1.100".to_string(), port: 502, slave_id: 1 });
    let mut results: Vec<Vec<u16>> = Vec::new();
    let mut step = SessionStep::first();
    loop {
        let succeeded = match step.action() {
            SessionAction::Connect => client.connect(TransportOutcome::Completed(())).is_ok(),
            SessionAction::Pause { .. } => true,
            SessionAction::Read { function_code, address, quantity } => {
                assert!(client.read_request(function_code, address, quantity).is_ok());
                let reply = TransportOutcome::Completed(ReadReply::Words(vec![5, 6, 7, 8]));
                match client.read_registers(function_code, address, quantity, reply) {
                    Ok(values) => {
                        results.push(values);
                        true
                    }
                    Err(_) => false,
                }
            }
            SessionAction::Write { function_code, address, quantity, values } => {
                assert!(client.write_request(function_code, address, quantity, &values).is_ok());
                client
                    .write_registers(function_code, address, quantity, &values, TransportOutcome::Completed(()))
                    .is_ok()
            }
            SessionAction::Disconnect => {
                assert!(client.disconnect_request());
                client.disconnect(CloseOutcome::Closed).is_ok()
            }
            SessionAction::Leave => break,
        };
        assert!(succeeded);
        step = step.next(succeeded);
    }
    assert_eq!(results, vec![vec![5, 6, 7, 8], vec![5, 6, 7, 8]]);
    assert!(!client.is_connected());
}
