use buttplug::commands::ActuatorType;
use buttplug::endpoint::Endpoint;
use buttplug::errors::ButtplugDeviceError;
use buttplug::evdev_comm_manager::{
    EvdevCommunicationManager, EvdevCommunicationManagerBuilder, ScanAction, ScanCandidate,
    TimedRetryCommunicationManager,
};
use buttplug::evdev_hardware::{EvdevDeviceInfo, EvdevDeviceImpl, EvdevHardwareConnector,
    vibrate_effect};
use buttplug::evdev_protocol::Evdev;

fn ff_device(name: Option<&str>, product: u16, supports_ff: bool) -> EvdevDeviceInfo {
    EvdevDeviceInfo {
        name: name.map(|n| n.to_owned()),
        vendor: 0x1234,
        product,
        version: 1,
        supports_ff,
    }
}

fn entry(file_name: &str, device: Option<EvdevDeviceInfo>) -> ScanCandidate {
    ScanCandidate::Entry { file_name: file_name.to_owned(), device }
}

#[test]
fn scalar_cmd_encodes_little_endian() {
    let handler = Evdev::default();
    assert!(handler.needs_full_command_set());
    let writes = handler
        .handle_scalar_cmd(&vec![Some((ActuatorType::Vibrate, 700))])
        .unwrap();
    assert_eq!(writes.len(), 1);
    assert_eq!(writes[0].endpoint, Endpoint::Tx);
    assert!(!writes[0].write_with_response);
    assert_eq!(writes[0].data, vec![0xBC, 0x02]);
}

#[test]
fn scalar_cmd_truncates_to_low_sixteen_bits() {
    let handler = Evdev::default();
    let writes = handler
        .handle_scalar_cmd(&vec![Some((ActuatorType::Vibrate, 0x11170))])
        .unwrap();
    assert_eq!(writes[0].data, vec![0x70, 0x11]);
    let zero = handler
        .handle_scalar_cmd(&vec![Some((ActuatorType::Vibrate, 0))])
        .unwrap();
    assert_eq!(zero[0].data, vec![0x00, 0x00]);
    let max = handler
        .handle_scalar_cmd(&vec![Some((ActuatorType::Vibrate, 0xFFFF))])
        .unwrap();
    assert_eq!(max[0].data, vec![0xFF, 0xFF]);
}

#[test]
fn effect_carries_decoded_magnitude() {
    let effect = vibrate_effect(&vec![0x34, 0x12], 100);
    assert_eq!(effect.direction, 0);
    assert_eq!(effect.trigger_button, 0);
    assert_eq!(effect.trigger_interval, 0);
    assert_eq!(effect.replay_delay, 0);
    assert_eq!(effect.replay_length, 100);
    assert_eq!(effect.weak_magnitude, 0x1234);
    assert_eq!(effect.strong_magnitude, 0x1234);
}

#[test]
fn connector_builds_handle_from_device_info() {
    let connector = EvdevHardwareConnector::new(ff_device(Some("Gamepad"), 513, true));
    let hardware = connector.connect();
    assert!(hardware.connected);
    assert_eq!(hardware.name, "Gamepad".to_owned());
    assert_eq!(hardware.address, "513".to_owned());
    assert_eq!(hardware.endpoints, vec![Endpoint::Rx, Endpoint::Tx]);
}

#[test]
fn connector_names_anonymous_devices() {
    let connector = EvdevHardwareConnector::new(ff_device(None, 7, true));
    let hardware = connector.connect();
    assert_eq!(hardware.name, "Unnamed Device".to_owned());
    assert_eq!(hardware.address, "7".to_owned());
}

#[test]
fn device_impl_gates_writes_on_connection() {
    let mut device = EvdevDeviceImpl::new();
    assert!(device.connected());
    assert_eq!(device.write_value(vec![1, 2]), Ok(vec![1, 2]));
    assert_eq!(device.read_value(), Err(ButtplugDeviceError::NotSupported));
    assert_eq!(device.subscribe(), Err(ButtplugDeviceError::NotSupported));
    assert_eq!(device.unsubscribe(), Err(ButtplugDeviceError::NotSupported));
    assert!(device.disconnect());
    assert!(!device.disconnect());
    assert_eq!(
        device.write_value(vec![1, 2]),
        Err(ButtplugDeviceError::NotConnected)
    );
}

#[test]
fn scan_reports_every_passing_candidate() {
    let manager = EvdevCommunicationManagerBuilder::default().finish();
    assert_eq!(manager.name(), "EvdevCommunicationManager");
    assert!(manager.can_scan());
    let candidates = vec![
        entry("event0", Some(ff_device(Some("A"), 1, true))),
        entry("mouse0", Some(ff_device(Some("mouse"), 2, true))),
        entry("event1", None),
        entry("event2", Some(ff_device(Some("no-ff"), 3, false))),
        entry("event3", Some(ff_device(None, 4, true))),
    ];
    let events = manager.scan(candidates);
    assert_eq!(events.len(), 2);
    assert_eq!(events[0].name, "A".to_owned());
    assert_eq!(events[0].address, "1".to_owned());
    assert_eq!(events[0].connector.device.product, 1);
    assert_eq!(events[1].name, "Unnamed device".to_owned());
    assert_eq!(events[1].address, "4".to_owned());
}

#[test]
fn scan_survives_one_bad_candidate_among_ten() {
    let manager = EvdevCommunicationManager {};
    let mut candidates = Vec::new();
    for i in 0..10u16 {
        if i == 4 {
            candidates.push(ScanCandidate::Unreadable);
        } else {
            let name = format!("event{}", i);
            candidates.push(entry(&name, Some(ff_device(Some("toy"), 100 + i, true))));
        }
    }
    let events = manager.scan(candidates);
    assert_eq!(events.len(), 9);
    // The other nine are all reported, in enumeration order.
    let expected: Vec<String> = (0..10u16)
        .filter(|i| *i != 4)
        .map(|i| format!("{}", 100 + i))
        .collect();
    let got: Vec<String> = events.iter().map(|e| e.address.clone()).collect();
    assert_eq!(got, expected);
}

#[test]
fn retry_loop_scans_again_after_failure() {
    let mut retry = TimedRetryCommunicationManager::new(true);
    assert_eq!(retry.on_tick(), ScanAction::StartScan);
    // While a scan runs, further ticks wait.
    assert_eq!(retry.on_tick(), ScanAction::Wait);
    // A failed scan is retried on the next tick, never fatal.
    assert!(retry.on_scan_finished(false));
    assert_eq!(retry.on_tick(), ScanAction::StartScan);
    assert!(retry.on_scan_finished(true));
    assert_eq!(retry.on_tick(), ScanAction::StartScan);
}

#[test]
fn retry_loop_respects_can_scan() {
    let mut retry = TimedRetryCommunicationManager::new(false);
    assert_eq!(retry.on_tick(), ScanAction::Wait);
    assert!(!retry.on_scan_finished(true));
}
