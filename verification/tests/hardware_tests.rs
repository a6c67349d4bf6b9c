use buttplug::endpoint::Endpoint;
use buttplug::errors::ButtplugDeviceError;
use buttplug::hardware::{Hardware, HardwareSubscribeCmd, HardwareUnsubscribeCmd,
    HardwareWriteCmd};
use buttplug::wire::{decimal_string, encode_decimal, parse_battery_response, parse_identifier};

fn handle() -> Hardware {
    Hardware::new("Test Device", "addr1", vec![Endpoint::Rx, Endpoint::Tx])
}

#[test]
fn write_gate_accepts_supported_endpoint_while_connected() {
    let hardware = handle();
    let cmd = HardwareWriteCmd::new(Endpoint::Tx, b"Vibrate:1;".to_vec(), false);
    assert_eq!(hardware.write_value(&cmd), Ok(()));
    assert!(hardware.supports_endpoint(Endpoint::Rx));
    assert!(hardware.supports_endpoint(Endpoint::Tx));
}

#[test]
fn write_gate_rejects_unsupported_endpoint() {
    let hardware = Hardware::new("Test Device", "addr1", vec![Endpoint::Tx]);
    assert!(!hardware.supports_endpoint(Endpoint::Rx));
    let cmd = HardwareWriteCmd::new(Endpoint::Rx, vec![], false);
    assert_eq!(
        hardware.write_value(&cmd),
        Err(ButtplugDeviceError::InvalidCommand)
    );
}

#[test]
fn disconnected_handle_fails_deterministically() {
    let mut hardware = handle();
    assert!(hardware.connected());
    assert!(hardware.disconnect());
    // Idempotent: a second disconnect reports no flip, so `Removed` is
    // emitted exactly once.
    assert!(!hardware.disconnect());
    assert!(!hardware.connected());
    let cmd = HardwareWriteCmd::new(Endpoint::Tx, vec![], false);
    assert_eq!(
        hardware.write_value(&cmd),
        Err(ButtplugDeviceError::NotConnected)
    );
    assert_eq!(
        hardware.subscribe(&HardwareSubscribeCmd { endpoint: Endpoint::Rx }),
        Err(ButtplugDeviceError::NotConnected)
    );
    assert_eq!(
        hardware.unsubscribe(&HardwareUnsubscribeCmd { endpoint: Endpoint::Rx }),
        Err(ButtplugDeviceError::NotConnected)
    );
}

#[test]
fn subscribe_gate_mirrors_write_gate() {
    let hardware = handle();
    assert_eq!(
        hardware.subscribe(&HardwareSubscribeCmd { endpoint: Endpoint::Rx }),
        Ok(())
    );
    assert_eq!(
        hardware.unsubscribe(&HardwareUnsubscribeCmd { endpoint: Endpoint::Rx }),
        Ok(())
    );
}

#[test]
fn endpoints_compare_by_channel() {
    assert!(Endpoint::Rx.same_as(&Endpoint::Rx));
    assert!(!Endpoint::Rx.same_as(&Endpoint::Tx));
}

#[test]
fn error_descriptions_are_stable() {
    assert_eq!(
        ButtplugDeviceError::NotConnected.description(),
        "device not connected"
    );
    assert_eq!(
        ButtplugDeviceError::InvalidCommand.description(),
        "invalid command"
    );
    assert_eq!(
        ButtplugDeviceError::NotSupported.description(),
        "operation not supported"
    );
    assert_eq!(
        ButtplugDeviceError::ProtocolSpecificError.description(),
        "protocol-specific encoding error"
    );
    assert_eq!(
        ButtplugDeviceError::DeviceConnectionError.description(),
        "device connection error"
    );
}

#[test]
fn decimal_renderings_match() {
    assert_eq!(encode_decimal(0), b"0".to_vec());
    assert_eq!(encode_decimal(9), b"9".to_vec());
    assert_eq!(encode_decimal(10), b"10".to_vec());
    assert_eq!(encode_decimal(1234567890), b"1234567890".to_vec());
    assert_eq!(decimal_string(0), "0".to_owned());
    assert_eq!(decimal_string(65535), "65535".to_owned());
}

#[test]
fn battery_parser_accepts_only_digit_percentages() {
    assert_eq!(parse_battery_response(b"85;"), Some(85));
    assert_eq!(parse_battery_response(b"255;"), Some(255));
    assert_eq!(parse_battery_response(b"256;"), None);
    assert_eq!(parse_battery_response(b"9"), None);
    assert_eq!(parse_battery_response(b""), None);
    assert_eq!(parse_battery_response(b"-5;"), None);
    // The final delimiter byte is discarded without inspection.
    assert_eq!(parse_battery_response(b"42x"), Some(42));
}

#[test]
fn identifier_parser_stops_at_first_colon() {
    assert_eq!(parse_identifier(b"W:39:xxx"), b"W".to_vec());
    assert_eq!(parse_identifier(b"::"), Vec::<u8>::new());
    assert_eq!(parse_identifier(b"plain"), b"plain".to_vec());
}
