use buttplug_matchbox::{
    DeviceError, Endpoint, RemoteDeviceHandle, WebRtcHardware, WebRtcHardwareConnector,
    WriteAction,
};

fn handle(name: &str, index: u32) -> RemoteDeviceHandle {
    RemoteDeviceHandle { name: name.to_string(), index }
}

fn scalar_cmd_json(value: f64) -> String {
    let cmd = buttplug::core::message::ButtplugDeviceCommandMessageUnion::ScalarCmd(
        buttplug::core::message::ScalarCmd::new(
            0,
            vec![buttplug::core::message::ScalarSubcommand::new(
                0,
                value,
                buttplug::core::message::ActuatorType::Vibrate,
            )],
        ),
    );
    serde_json::to_string(&cmd).unwrap()
}

#[test]
fn well_formed_scalar_command_forwards_its_first_scalar() {
    let hardware = WebRtcHardware::new(handle("Vibe1", 0));
    let payload = scalar_cmd_json(0.5).into_bytes();
    let action = hardware.write_value(&payload);
    assert_eq!(action, WriteAction::Forward { scalar_bits: (0.5f64).to_bits() });
}

#[test]
fn scalar_command_with_several_scalars_forwards_the_first() {
    let cmd = buttplug::core::message::ButtplugDeviceCommandMessageUnion::ScalarCmd(
        buttplug::core::message::ScalarCmd::new(
            0,
            vec![
                buttplug::core::message::ScalarSubcommand::new(
                    0,
                    0.25,
                    buttplug::core::message::ActuatorType::Vibrate,
                ),
                buttplug::core::message::ScalarSubcommand::new(
                    1,
                    0.75,
                    buttplug::core::message::ActuatorType::Vibrate,
                ),
            ],
        ),
    );
    let payload = serde_json::to_string(&cmd).unwrap().into_bytes();
    let hardware = WebRtcHardware::new(handle("Vibe1", 0));
    let action = hardware.write_value(&payload);
    assert_eq!(action, WriteAction::Forward { scalar_bits: (0.25f64).to_bits() });
}

#[test]
fn non_utf8_payload_is_ignored() {
    let hardware = WebRtcHardware::new(handle("Vibe1", 0));
    let action = hardware.write_value(&vec![0xff, 0xfe, 0x00]);
    assert_eq!(action, WriteAction::Ignore);
}

#[test]
fn non_json_text_payload_is_ignored() {
    let hardware = WebRtcHardware::new(handle("Vibe1", 0));
    let action = hardware.write_value(&b"not a command".to_vec());
    assert_eq!(action, WriteAction::Ignore);
}

#[test]
fn non_scalar_command_payload_is_ignored() {
    let cmd = buttplug::core::message::ButtplugDeviceCommandMessageUnion::StopDeviceCmd(
        buttplug::core::message::StopDeviceCmd::new(0),
    );
    let payload = serde_json::to_string(&cmd).unwrap().into_bytes();
    let hardware = WebRtcHardware::new(handle("Vibe1", 0));
    let action = hardware.write_value(&payload);
    assert_eq!(action, WriteAction::Ignore);
}

#[test]
fn connect_builds_the_descriptor_for_the_device() {
    let connector = WebRtcHardwareConnector::new(handle("Vibe1", 0));
    let descriptor = connector.connect().unwrap();
    assert_eq!(descriptor.name, "Vibe1");
    assert_eq!(descriptor.address, "webrtc-device-0");
    assert_eq!(descriptor.endpoints, vec![Endpoint::Tx, Endpoint::Rx]);
}

#[test]
fn descriptor_address_carries_the_remote_index() {
    let connector = WebRtcHardwareConnector::new(handle("Stroker", 4294967295));
    let descriptor = connector.connect().unwrap();
    assert_eq!(descriptor.address, "webrtc-device-4294967295");
}

#[test]
fn specifier_is_the_fixed_protocol_tag() {
    let connector = WebRtcHardwareConnector::new(handle("Vibe1", 0));
    assert_eq!(connector.specifier(), "webrtc");
}

#[test]
fn disconnect_is_idempotent_and_changes_nothing() {
    let hardware = WebRtcHardware::new(handle("Vibe1", 3));
    assert!(hardware.disconnect().is_ok());
    assert!(hardware.disconnect().is_ok());
    assert!(hardware.disconnect().is_ok());
    assert_eq!(hardware.device, handle("Vibe1", 3));
}

#[test]
fn unsupported_capabilities_report_an_explicit_error() {
    let hardware = WebRtcHardware::new(handle("Vibe1", 0));
    assert_eq!(hardware.read_value(), Err(DeviceError::UnsupportedOperation));
    assert_eq!(hardware.subscribe(), Err(DeviceError::UnsupportedOperation));
    assert_eq!(hardware.unsubscribe(), Err(DeviceError::UnsupportedOperation));
}
