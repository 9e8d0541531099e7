use buttplug_matchbox::{
    ButtplugWebRtcTransport, ClientEvent, ManagerAction, SerializedMessage,
    WebRtcDeviceCommunicationManagerBuilder, format_u32, handle_client_event,
};

#[test]
fn discovered_device_emits_exactly_one_hardware_found_event() {
    let event = ClientEvent::DeviceAdded { name: "Vibe1".to_string(), index: 0 };
    let action = handle_client_event(&event);
    assert_eq!(
        action,
        ManagerAction::EmitDeviceFound {
            name: "Vibe1".to_string(),
            address: "webrtc-device-0".to_string(),
        }
    );
}

#[test]
fn other_client_events_are_only_logged() {
    let events = vec![
        ClientEvent::DeviceRemoved { name: "Vibe1".to_string(), index: 0 },
        ClientEvent::ScanningFinished,
        ClientEvent::PingTimeout,
        ClientEvent::ServerConnect,
        ClientEvent::ServerDisconnect,
        ClientEvent::ProtocolError,
    ];
    for event in events {
        assert_eq!(handle_client_event(&event), ManagerAction::LogOnly);
    }
}

#[test]
fn builder_keeps_address_and_name() {
    let builder = WebRtcDeviceCommunicationManagerBuilder::new("ws://localhost:3536", "Example");
    assert_eq!(builder.signalling_server_address, "ws://localhost:3536");
    assert_eq!(builder.server_name, "Example");
    let manager = builder.finish();
    assert_eq!(manager.signalling_server_address, "ws://localhost:3536");
    assert_eq!(manager.server_name, "Example");
}

#[test]
fn manager_scan_controls_are_successful_no_ops() {
    let builder = WebRtcDeviceCommunicationManagerBuilder::new("ws://localhost:3536", "Example");
    let mut manager = builder.finish();
    assert_eq!(manager.name(), "WebRTC Communication Manager");
    assert!(manager.can_scan());
    assert!(manager.start_scanning().is_ok());
    assert!(manager.stop_scanning().is_ok());
    assert!(manager.start_scanning().is_ok());
    assert_eq!(manager.signalling_server_address, "ws://localhost:3536");
}

#[test]
fn transport_keeps_its_configuration() {
    let transport = ButtplugWebRtcTransport::new("ws://localhost:3536", "room");
    assert_eq!(transport.signalling_server_address, "ws://localhost:3536");
    assert_eq!(transport.room_name, "room");
}

#[test]
fn transport_disconnect_is_idempotent() {
    let transport = ButtplugWebRtcTransport::new("ws://localhost:3536", "");
    assert!(transport.disconnect().is_ok());
    assert!(transport.disconnect().is_ok());
    assert_eq!(transport.signalling_server_address, "ws://localhost:3536");
}

#[test]
fn decimal_formatting_matches_expected_values() {
    assert_eq!(format_u32(0), "0");
    assert_eq!(format_u32(7), "7");
    assert_eq!(format_u32(10), "10");
    assert_eq!(format_u32(123), "123");
    assert_eq!(format_u32(4294967295), "4294967295");
}

#[test]
fn text_message_bytes_are_utf8() {
    let message = SerializedMessage::Text("h\u{e9}llo".to_string());
    assert_eq!(message.into_bytes(), "h\u{e9}llo".as_bytes().to_vec());
}
