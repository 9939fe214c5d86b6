use sermo::serial::port_info_from_fields;
use sermo::{
    Direction, Error, MemorySerialPort, Message, PortConfig, PortInfo, PortState, PortType,
    SerialPort, SerialPortConfig, Timestamp,
};

fn fresh_port() -> MemorySerialPort {
    MemorySerialPort::new(PortInfo::default(), PortConfig::default())
}

#[test]
fn new_port_is_not_open() {
    let port = fresh_port();
    assert!(!port.is_open());
    assert_eq!(port.state, PortState::Unopened);
}

#[test]
fn open_then_close_walks_the_lifecycle() {
    let mut port = fresh_port();
    assert!(!port.is_open());
    port.open().unwrap();
    assert!(port.is_open());
    port.close().unwrap();
    assert!(!port.is_open());
}

#[test]
fn close_is_idempotent() {
    let mut port = fresh_port();
    port.open().unwrap();
    port.close().unwrap();
    port.close().unwrap();
    assert!(!port.is_open());
    // Closing an instance that was never opened is not an error either.
    let mut unopened = fresh_port();
    unopened.close().unwrap();
    assert!(!unopened.is_open());
}

#[test]
fn read_and_write_fail_while_not_open() {
    let mut port = fresh_port();
    assert!(matches!(port.read(), Err(Error::ReadError(_))));
    let msg = Message::new(Timestamp(1), Direction::Out, "hi".to_string());
    assert!(matches!(port.write(msg), Err(Error::WriteError(_))));
    port.open().unwrap();
    port.close().unwrap();
    assert!(matches!(port.read(), Err(Error::ReadError(_))));
    let msg = Message::new(Timestamp(2), Direction::Out, "hi".to_string());
    assert!(matches!(port.write(msg), Err(Error::WriteError(_))));
}

#[test]
fn invalid_data_bits_are_rejected_at_open() {
    for bits in [0u8, 4, 9, 255] {
        let mut port = MemorySerialPort::new(PortInfo::default(), PortConfig::new(9600, bits, 1));
        assert!(matches!(port.open(), Err(Error::ConfigError(_))));
        assert!(!port.is_open());
    }
}

#[test]
fn invalid_stop_bits_are_rejected_at_open() {
    for bits in [0u8, 3, 100] {
        let mut port = MemorySerialPort::new(PortInfo::default(), PortConfig::new(9600, 8, bits));
        assert!(matches!(port.open(), Err(Error::ConfigError(_))));
        assert!(!port.is_open());
    }
}

#[test]
fn every_enumerated_bit_combination_opens() {
    for data in 5u8..=8 {
        for stop in 1u8..=2 {
            let mut port =
                MemorySerialPort::new(PortInfo::default(), PortConfig::new(115200, data, stop));
            port.open().unwrap();
            assert!(port.is_open());
        }
    }
}

#[test]
fn open_after_close_is_an_open_error() {
    let mut port = fresh_port();
    port.open().unwrap();
    port.close().unwrap();
    assert!(matches!(port.open(), Err(Error::OpenError(_))));
    assert!(!port.is_open());
}

#[test]
fn read_pops_queued_messages_in_order() {
    let mut port = fresh_port();
    port.push_incoming(Message::new(Timestamp(1), Direction::In, "a".to_string()));
    port.push_incoming(Message::new(Timestamp(2), Direction::In, "b".to_string()));
    port.open().unwrap();
    let first = port.read().unwrap();
    assert_eq!(first.text(), "a");
    assert_eq!(first.timestamp().as_millis(), 1);
    assert_eq!(first.direction(), Direction::In);
    let second = port.read().unwrap();
    assert_eq!(second.text(), "b");
}

#[test]
fn empty_read_is_an_empty_message_stamped_now() {
    let mut port = fresh_port();
    port.set_clock(Timestamp(42));
    port.open().unwrap();
    let msg = port.read().unwrap();
    assert_eq!(msg.text(), "");
    assert_eq!(msg.direction(), Direction::In);
    assert_eq!(msg.timestamp().as_millis(), 42);
    assert!(port.is_open());
}

#[test]
fn writes_are_recorded_in_order() {
    let mut port = fresh_port();
    port.open().unwrap();
    port.write(Message::new(Timestamp(1), Direction::Out, "x".to_string())).unwrap();
    port.write(Message::new(Timestamp(2), Direction::Out, "y".to_string())).unwrap();
    let written = port.written();
    assert_eq!(written.len(), 2);
    assert_eq!(written[0].text(), "x");
    assert_eq!(written[1].text(), "y");
}

#[test]
fn flush_succeeds_and_keeps_state() {
    let mut port = fresh_port();
    port.flush().unwrap();
    assert!(!port.is_open());
    port.open().unwrap();
    port.flush().unwrap();
    assert!(port.is_open());
}

#[test]
fn request_port_yields_an_unopened_instance() {
    let port =
        MemorySerialPort::request_port(PortInfo::default(), PortConfig::default()).unwrap();
    assert!(!port.is_open());
}

#[test]
fn list_ports_enumerates_nothing_in_memory() {
    let ports = MemorySerialPort::list_ports().unwrap();
    assert!(ports.is_empty());
}

#[test]
fn config_and_info_stay_queryable_in_every_state() {
    let info = PortInfo::new("COM7".to_string(), PortType::Bluetooth);
    let config = PortConfig::new(115200, 8, 2);
    let mut port = MemorySerialPort::new(info, config);
    assert_eq!(port.info().port, "COM7");
    assert_eq!(port.config().baud_rate, 115200);
    port.open().unwrap();
    port.close().unwrap();
    assert_eq!(port.info().port, "COM7");
    assert_eq!(port.config().stop_bits, 2);
}

#[test]
fn builder_style_configuration() {
    let port = fresh_port()
        .with_port("/dev/ttyUSB0".to_string())
        .with_config(PortConfig::new(57600, 7, 1));
    assert_eq!(port.info().port, "/dev/ttyUSB0");
    assert_eq!(port.config().baud_rate, 57600);
    assert_eq!(port.config().data_bits, 7);
}

#[test]
fn port_equality_is_structural_over_info_and_config() {
    let info = PortInfo::new("COM1".to_string(), PortType::Pci);
    let config = PortConfig::new(9600, 8, 1);
    let mut a = MemorySerialPort::new(info.clone(), config);
    let b = MemorySerialPort::new(info.clone(), config);
    // Lifecycle state does not enter equality: the same device with the
    // same settings compares equal even when one side is open.
    a.open().unwrap();
    assert!(a == b);
    let c = MemorySerialPort::new(info, PortConfig::new(19200, 8, 1));
    assert!(a != c);
}

#[test]
fn config_validate_matches_the_enumerated_sets() {
    assert!(PortConfig::new(9600, 8, 1).validate().is_ok());
    assert!(matches!(
        PortConfig::new(9600, 9, 1).validate(),
        Err(Error::ConfigError(_))
    ));
    assert!(matches!(
        PortConfig::new(9600, 8, 0).validate(),
        Err(Error::ConfigError(_))
    ));
}

#[test]
fn port_info_prefers_explicit_name() {
    let info = port_info_from_fields(
        "Serial Port 0".to_string(),
        PortType::Other("tag".to_string()),
        Some("nice-name".to_string()),
        Some("/dev/ignored".to_string()),
        Some(1),
        None,
        None,
        None,
        None,
    );
    assert_eq!(info.port, "nice-name");
    assert!(info.description.is_none());
    assert!(matches!(info.port_type, PortType::Other(_)));
}

#[test]
fn port_info_builds_usb_metadata_and_description() {
    let info = port_info_from_fields(
        String::new(),
        PortType::Other("tag".to_string()),
        None,
        None,
        Some(0x1a86),
        Some(0x7523),
        Some("Acme".to_string()),
        Some("Widget".to_string()),
        Some("SN1".to_string()),
    );
    assert_eq!(info.port, "Acme Widget");
    assert_eq!(info.description.as_deref(), Some("Acme Widget"));
    match info.port_type {
        PortType::Usb { vendor_id, product_id, manufacturer, product, serial_number } => {
            assert_eq!(vendor_id, Some(0x1a86));
            assert_eq!(product_id, Some(0x7523));
            assert_eq!(manufacturer.as_deref(), Some("Acme"));
            assert_eq!(product.as_deref(), Some("Widget"));
            assert_eq!(serial_number.as_deref(), Some("SN1"));
        },
        _ => panic!("Expected a USB port type"),
    }
}

#[test]
fn port_info_falls_back_to_path_then_default() {
    let info = port_info_from_fields(
        "Serial Port 3".to_string(),
        PortType::Other("tag".to_string()),
        None,
        Some("/dev/ttyACM0".to_string()),
        None,
        None,
        None,
        None,
        None,
    );
    assert_eq!(info.port, "/dev/ttyACM0");

    let info = port_info_from_fields(
        "Serial Port 3".to_string(),
        PortType::Other("tag".to_string()),
        None,
        None,
        None,
        None,
        None,
        None,
        None,
    );
    assert_eq!(info.port, "Serial Port 3");
    assert!(info.description.is_none());
}

#[test]
fn port_info_description_from_manufacturer_only() {
    let info = port_info_from_fields(
        String::new(),
        PortType::Other("tag".to_string()),
        None,
        None,
        None,
        None,
        Some("Acme".to_string()),
        None,
        None,
    );
    assert_eq!(info.port, "Acme");
    assert_eq!(info.description.as_deref(), Some("Acme"));
    assert!(matches!(info.port_type, PortType::Other(_)));
}

#[test]
fn port_info_equality_compares_contents() {
    let a = PortInfo::new("COM1".to_string(), PortType::Bluetooth);
    let b = PortInfo::new("COM1".to_string(), PortType::Bluetooth);
    let c = PortInfo::new("COM2".to_string(), PortType::Bluetooth);
    assert!(a == b);
    assert!(a != c);
    assert!(PortConfig::default() == PortConfig::new(9600, 8, 1));
}

#[test]
fn direction_renders_as_text() {
    assert_eq!(Direction::In.as_text(), "In");
    assert_eq!(Direction::Out.as_text(), "Out");
}

#[test]
fn error_message_carries_the_payload() {
    let e = Error::DeviceNotFound("no backend".to_string());
    assert_eq!(e.message(), "no backend");
    let e = Error::IoError("broken pipe".to_string());
    assert_eq!(e.message(), "broken pipe");
}
