use modbus_supervisor::modbus::function::FunctionCode;

#[test]
fn read_codes_are_classified() {
    assert_eq!(FunctionCode::from_code(0x01), FunctionCode::ReadCoils);
    assert_eq!(FunctionCode::from_code(0x02), FunctionCode::ReadDiscreteInputs);
    assert_eq!(FunctionCode::from_code(0x03), FunctionCode::ReadHoldingRegisters);
    assert_eq!(FunctionCode::from_code(0x04), FunctionCode::ReadInputRegisters);
}

#[test]
fn write_codes_are_classified() {
    assert_eq!(FunctionCode::from_code(0x05), FunctionCode::WriteSingleCoil);
    assert_eq!(FunctionCode::from_code(0x06), FunctionCode::WriteSingleRegister);
    assert_eq!(FunctionCode::from_code(0x0F), FunctionCode::WriteMultipleCoils);
    assert_eq!(FunctionCode::from_code(0x10), FunctionCode::WriteMultipleRegisters);
}

#[test]
fn every_other_code_is_unsupported() {
    let supported: [u8; 8] = [0x01, 0x02, 0x03, 0x04, 0x05, 0x06, 0x0F, 0x10];
    let mut code: u8 = 0;
    loop {
        if !supported.contains(&code) {
            assert_eq!(FunctionCode::from_code(code), FunctionCode::Unsupported, "code {}", code);
        }
        if code == u8::MAX {
            break;
        }
        code += 1;
    }
}

#[test]
fn supported_codes_select_distinct_operations() {
    let supported: [u8; 8] = [0x01, 0x02, 0x03, 0x04, 0x05, 0x06, 0x0F, 0x10];
    for a in supported {
        for b in supported {
            if a != b {
                assert_ne!(FunctionCode::from_code(a), FunctionCode::from_code(b));
            }
        }
    }
}
