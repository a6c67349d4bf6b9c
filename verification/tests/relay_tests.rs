use buttplug::endpoint::Endpoint;
use buttplug::errors::ButtplugDeviceError;
use buttplug::hardware::{HardwareEvent, HardwareReadCmd, HardwareSubscribeCmd,
    HardwareUnsubscribeCmd};
use buttplug::relay::{
    LovenseDongleDeviceImpl, LovenseDongleDeviceImplCreator, LovenseDongleIncomingData,
    LovenseDongleIncomingMessage, LovenseDongleMessageFunc, LovenseDongleMessageType,
    route_incoming,
};

fn toy_data(id: &str, payload: &[u8]) -> LovenseDongleIncomingMessage {
    LovenseDongleIncomingMessage {
        func: LovenseDongleMessageFunc::ToyData,
        data: Some(LovenseDongleIncomingData {
            id: Some(id.to_owned()),
            data: Some(payload.to_vec()),
        }),
    }
}

#[test]
fn non_toy_data_messages_produce_no_notification() {
    for func in [
        LovenseDongleMessageFunc::Command,
        LovenseDongleMessageFunc::Search,
        LovenseDongleMessageFunc::StopSearch,
        LovenseDongleMessageFunc::StatusUpdate,
    ] {
        let msg = LovenseDongleIncomingMessage {
            func,
            data: Some(LovenseDongleIncomingData {
                id: Some("A".to_owned()),
                data: Some(b"s:60;".to_vec()),
            }),
        };
        assert!(route_incoming("A", msg).is_none());
    }
}

#[test]
fn toy_data_message_produces_exactly_one_notification() {
    let event = route_incoming("A", toy_data("A", b"s:60;")).unwrap();
    match event {
        HardwareEvent::Notification(address, endpoint, payload) => {
            assert_eq!(address, "A".to_owned());
            assert_eq!(endpoint, Endpoint::Rx);
            assert_eq!(payload, b"s:60;".to_vec());
        }
        other => panic!("expected a notification, got {:?}", other),
    }
}

#[test]
fn dongle_write_builds_relay_envelope() {
    let device = LovenseDongleDeviceImpl::new("toyid42");
    let msg = device.write_value(b"Vibrate:10;".to_vec()).unwrap();
    assert_eq!(msg.func, LovenseDongleMessageFunc::Command);
    assert_eq!(msg.message_type, LovenseDongleMessageType::Toy);
    assert_eq!(msg.id, Some("toyid42".to_owned()));
    assert_eq!(msg.command, Some(b"Vibrate:10;".to_vec()));
}

#[test]
fn dongle_write_after_disconnect_is_not_connected() {
    let mut device = LovenseDongleDeviceImpl::new("toyid42");
    assert!(device.connected());
    assert!(device.disconnect());
    assert!(!device.connected());
    // Disconnect is idempotent; only the first call reports the flip.
    assert!(!device.disconnect());
    assert_eq!(
        device.write_value(b"Vibrate:10;".to_vec()).unwrap_err(),
        ButtplugDeviceError::NotConnected
    );
}

#[test]
fn dongle_read_is_unsupported_and_subscribe_is_noop() {
    let device = LovenseDongleDeviceImpl::new("toyid42");
    assert_eq!(
        device.read_value(&HardwareReadCmd { endpoint: Endpoint::Rx }),
        Err(ButtplugDeviceError::NotSupported)
    );
    assert_eq!(
        device.subscribe(&HardwareSubscribeCmd { endpoint: Endpoint::Rx }),
        Ok(())
    );
    assert_eq!(
        device.unsubscribe(&HardwareUnsubscribeCmd { endpoint: Endpoint::Rx }),
        Ok(())
    );
}

#[test]
fn creator_finalizes_into_handle_and_device() {
    let creator = LovenseDongleDeviceImplCreator::new("toyid42");
    assert_eq!(creator.get_specifier(), "LVS-DongleDevice".to_owned());
    let (hardware, device) = creator.try_create_device_impl();
    assert_eq!(hardware.name, "Lovense Dongle Device".to_owned());
    assert_eq!(hardware.address, "toyid42".to_owned());
    assert_eq!(hardware.endpoints, vec![Endpoint::Rx, Endpoint::Tx]);
    assert!(hardware.connected);
    assert_eq!(device.address, "toyid42".to_owned());
    assert!(device.connected);
}
