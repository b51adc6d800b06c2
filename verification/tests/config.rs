use modbus_supervisor::device_configuration::modbus::{Config, ModbusDevice};
use modbus_supervisor::modbus::client::ModbusDevice as Endpoint;

fn endpoint(ip: &str, port: u16, slave_id: u8) -> Endpoint {
    Endpoint { ip: ip.to_string(), port, slave_id }
}

#[test]
fn empty_config_names_no_gateway() {
    let config = Config::empty();
    assert!(config.gateways.is_empty());
    assert!(config.endpoints().is_empty());
}

#[test]
fn gateway_resolves_to_one_endpoint_per_station() {
    let gateway = ModbusDevice { ip: "192.168.1.100".to_string(), port: 502, slave_ids: vec![1, 2, 247] };
    assert_eq!(
        gateway.endpoints(),
        vec![
            endpoint("192.168.1.100", 502, 1),
            endpoint("192.168.1.100", 502, 2),
            endpoint("192.168.1.100", 502, 247),
        ]
    );
}

#[test]
fn gateway_without_stations_resolves_to_nothing() {
    let gateway = ModbusDevice { ip: "192.168.1.100".to_string(), port: 502, slave_ids: Vec::new() };
    assert!(gateway.endpoints().is_empty());
}

#[test]
fn config_resolves_gateways_in_order() {
    let config = Config {
        gateways: vec![
            ModbusDevice { ip: "10.0.0.5".to_string(), port: 502, slave_ids: vec![3, 1] },
            ModbusDevice { ip: "10.0.0.6".to_string(), port: 1502, slave_ids: Vec::new() },
            ModbusDevice { ip: "plc.local".to_string(), port: 0, slave_ids: vec![0, 255, 3] },
        ],
    };
    assert_eq!(
        config.endpoints(),
        vec![
            endpoint("10.0.0.5", 502, 3),
            endpoint("10.0.0.5", 502, 1),
            endpoint("plc.local", 0, 0),
            endpoint("plc.local", 0, 255),
            endpoint("plc.local", 0, 3),
        ]
    );
}

#[test]
fn repeated_stations_are_kept() {
    let config = Config {
        gateways: vec![ModbusDevice { ip: "10.0.0.5".to_string(), port: 502, slave_ids: vec![7, 7] }],
    };
    assert_eq!(config.endpoints(), vec![endpoint("10.0.0.5", 502, 7), endpoint("10.0.0.5", 502, 7)]);
}
