use buttplug::commands::{ActuatorDesc, ActuatorType, GenericCommand, RotateSubcommand,
    ScalarSubcommand};
use buttplug::endpoint::Endpoint;
use buttplug::errors::ButtplugDeviceError;
use buttplug::lovense::{
    Lovense, encode_battery_query, encode_device_type_query, encode_rotate,
    encode_rotate_change, encode_vibrate_all, encode_vibrate_motor,
};

fn vibe(max: u32) -> ActuatorDesc {
    ActuatorDesc { actuator: ActuatorType::Vibrate, max_value: max }
}

fn rot(max: u32) -> ActuatorDesc {
    ActuatorDesc { actuator: ActuatorType::Rotate, max_value: max }
}

fn sub(index: usize, scalar: u32) -> ScalarSubcommand {
    ScalarSubcommand { index, scalar }
}

fn rsub(index: usize, speed: u32, clockwise: bool) -> RotateSubcommand {
    RotateSubcommand { index, speed, clockwise }
}

#[test]
fn vibrate_all_equal_sends_one_set_all_command() {
    let mut handler = Lovense::new_protocol("LVS-Test", &vec![vibe(20), vibe(20)]);
    let writes = handler.handle_vibrate_cmd(&vec![sub(0, 5), sub(1, 5)]).unwrap();
    assert_eq!(writes.len(), 1);
    assert_eq!(writes[0].endpoint, Endpoint::Tx);
    assert!(!writes[0].write_with_response);
    assert_eq!(writes[0].data, b"Vibrate:5;".to_vec());
}

#[test]
fn vibrate_unequal_sends_one_command_per_motor() {
    let mut handler = Lovense::new_protocol("LVS-Test", &vec![vibe(20), vibe(20)]);
    let writes = handler.handle_vibrate_cmd(&vec![sub(0, 5), sub(1, 7)]).unwrap();
    assert_eq!(writes.len(), 2);
    assert_eq!(writes[0].data, b"Vibrate1:5;".to_vec());
    assert_eq!(writes[1].data, b"Vibrate2:7;".to_vec());
}

#[test]
fn vibrate_repeated_command_sends_nothing() {
    let mut handler = Lovense::new_protocol("LVS-Test", &vec![vibe(20), vibe(20)]);
    let first = handler.handle_vibrate_cmd(&vec![sub(0, 5), sub(1, 5)]).unwrap();
    assert_eq!(first.len(), 1);
    let second = handler.handle_vibrate_cmd(&vec![sub(0, 5), sub(1, 5)]).unwrap();
    assert_eq!(second.len(), 0);
}

#[test]
fn vibrate_single_changed_motor_counts_as_all_equal() {
    let mut handler = Lovense::new_protocol(
        "LVS-Test",
        &vec![vibe(20), vibe(20), vibe(20)],
    );
    handler
        .handle_vibrate_cmd(&vec![sub(0, 10), sub(1, 10), sub(2, 10)])
        .unwrap();
    // Only motor 2 changes; absent entries are excluded from the
    // comparison, so the single present entry is "all equal".
    let writes = handler
        .handle_vibrate_cmd(&vec![sub(0, 10), sub(1, 5), sub(2, 10)])
        .unwrap();
    assert_eq!(writes.len(), 1);
    assert_eq!(writes[0].data, b"Vibrate:5;".to_vec());
}

#[test]
fn vibrate_rejects_invalid_command() {
    let mut handler = Lovense::new_protocol("LVS-Test", &vec![vibe(20)]);
    assert_eq!(
        handler.handle_vibrate_cmd(&vec![sub(2, 5)]).unwrap_err(),
        ButtplugDeviceError::InvalidCommand
    );
    assert_eq!(
        handler.handle_vibrate_cmd(&vec![sub(0, 21)]).unwrap_err(),
        ButtplugDeviceError::InvalidCommand
    );
}

#[test]
fn rotate_direction_change_emits_toggle() {
    let mut handler = Lovense::new_protocol("LVS-Test", &vec![rot(100)]);
    // The handler starts with a counterclockwise last-sent direction, so
    // the first clockwise command already toggles.
    let first = handler.handle_rotate_cmd(&vec![rsub(0, 50, true)]).unwrap();
    assert_eq!(first.len(), 2);
    assert_eq!(first[0].data, b"Rotate:50;".to_vec());
    assert_eq!(first[1].data, b"RotateChange;".to_vec());
    // Same speed, opposite direction: the toggle must still go out.
    let second = handler.handle_rotate_cmd(&vec![rsub(0, 50, false)]).unwrap();
    assert_eq!(second.len(), 2);
    assert_eq!(second[0].data, b"Rotate:50;".to_vec());
    assert_eq!(second[1].data, b"RotateChange;".to_vec());
    // The identical tuple again: nothing at all.
    let third = handler.handle_rotate_cmd(&vec![rsub(0, 50, false)]).unwrap();
    assert_eq!(third.len(), 0);
}

#[test]
fn rotate_speed_change_without_direction_change() {
    let mut handler = Lovense::new_protocol("LVS-Test", &vec![rot(100)]);
    handler.handle_rotate_cmd(&vec![rsub(0, 50, true)]).unwrap();
    let writes = handler.handle_rotate_cmd(&vec![rsub(0, 70, true)]).unwrap();
    assert_eq!(writes.len(), 1);
    assert_eq!(writes[0].data, b"Rotate:70;".to_vec());
}

#[test]
fn initialize_exchange_queries_device_type() {
    let (subscribe, query) = Lovense::initialize_commands();
    assert_eq!(subscribe.endpoint, Endpoint::Rx);
    assert_eq!(query.endpoint, Endpoint::Tx);
    assert_eq!(query.data, b"DeviceType;".to_vec());
    let identifier = Lovense::parse_device_type_response(b"C:11:0082059AD3BD;");
    assert_eq!(identifier, b"C".to_vec());
    let no_colon = Lovense::parse_device_type_response(b"whole");
    assert_eq!(no_colon, b"whole".to_vec());
    let empty = Lovense::parse_device_type_response(b"");
    assert_eq!(empty, Vec::<u8>::new());
}

#[test]
fn battery_exchange_parses_percentage() {
    let (subscribe, query) = Lovense::battery_commands();
    assert_eq!(subscribe.endpoint, Endpoint::Rx);
    assert_eq!(query.endpoint, Endpoint::Tx);
    assert_eq!(query.data, b"Battery;".to_vec());
    assert_eq!(Lovense::handle_battery_response(b"85;"), Ok(85));
    assert_eq!(Lovense::handle_battery_response(b"0;"), Ok(0));
    assert_eq!(Lovense::handle_battery_response(b"100;"), Ok(100));
}

#[test]
fn battery_malformed_response_is_not_connected() {
    assert_eq!(
        Lovense::handle_battery_response(b""),
        Err(ButtplugDeviceError::NotConnected)
    );
    assert_eq!(
        Lovense::handle_battery_response(b";"),
        Err(ButtplugDeviceError::NotConnected)
    );
    assert_eq!(
        Lovense::handle_battery_response(b"8a;"),
        Err(ButtplugDeviceError::NotConnected)
    );
    assert_eq!(
        Lovense::handle_battery_response(b"300;"),
        Err(ButtplugDeviceError::NotConnected)
    );
}

#[test]
fn handler_stop_commands_survive_dedup_state() {
    let mut handler = Lovense::new_protocol("LVS-Test", &vec![vibe(20), vibe(20)]);
    // Make the manager believe everything is already off.
    handler.handle_vibrate_cmd(&vec![sub(0, 5), sub(1, 5)]).unwrap();
    handler.handle_vibrate_cmd(&vec![sub(0, 0), sub(1, 0)]).unwrap();
    assert_eq!(
        handler
            .handle_vibrate_cmd(&vec![sub(0, 0), sub(1, 0)])
            .unwrap()
            .len(),
        0
    );
    // The stop path still carries the full stop set.
    let stops = handler.stop_commands();
    assert_eq!(stops.len(), 1);
    match &stops[0] {
        GenericCommand::Scalar(subs) => assert_eq!(subs, &vec![sub(0, 0), sub(1, 0)]),
        other => panic!("expected a scalar stop command, got {:?}", other),
    }
}

#[test]
fn wire_encoders_produce_exact_bytes() {
    assert_eq!(encode_vibrate_all(10), b"Vibrate:10;".to_vec());
    assert_eq!(encode_vibrate_all(0), b"Vibrate:0;".to_vec());
    assert_eq!(encode_vibrate_motor(2, 7), b"Vibrate2:7;".to_vec());
    assert_eq!(encode_rotate(50), b"Rotate:50;".to_vec());
    assert_eq!(encode_rotate_change(), b"RotateChange;".to_vec());
    assert_eq!(encode_battery_query(), b"Battery;".to_vec());
    assert_eq!(encode_device_type_query(), b"DeviceType;".to_vec());
}
