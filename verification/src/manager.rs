//! The discovery manager: it keeps one long-lived remote protocol
//! connection alive (through a transport relay) and re-surfaces every
//! remote device discovery as a local hardware-found event.
//!
//! The decisions of its background task are modelled by
//! [`handle_client_event`]: each event of the remote client's stream maps
//! to exactly one action — a hardware-found event for a discovered device,
//! carrying the synthetic `webrtc-device-{index}` address, and a logged
//! no-op for everything else (including protocol errors, which must never
//! end the task). Scanning is driven solely by the background task at
//! startup, so the manager's own scan controls are no-ops that always
//! succeed.

use vstd::prelude::*;

use crate::device::{DeviceError, device_address, format_device_address};

verus! {

/// Builds a discovery manager from a rendezvous address and a display
/// name.
pub struct WebRtcDeviceCommunicationManagerBuilder {
    pub server_name: String,
    pub signalling_server_address: String,
}

impl WebRtcDeviceCommunicationManagerBuilder {
    pub fn new(signalling_server_address: &str, server_name: &str) -> (r: Self)
        ensures
            r.signalling_server_address@ == signalling_server_address@,
            r.server_name@ == server_name@,
    {
        Self {
            server_name: server_name.to_owned(),
            signalling_server_address: signalling_server_address.to_owned(),
        }
    }

    /// The manager this builder describes. The surrounding runtime spawns
    /// the background task when it installs the manager.
    pub fn finish(&self) -> (r: WebRtcDeviceCommunicationManager)
        ensures
            r.signalling_server_address@ == self.signalling_server_address@,
            r.server_name@ == self.server_name@,
    {
        WebRtcDeviceCommunicationManager {
            server_name: self.server_name.clone(),
            signalling_server_address: self.signalling_server_address.clone(),
        }
    }
}

/// The discovery manager's handle: its configuration and the no-op scan
/// controls. The background task itself is run by the surrounding runtime.
pub struct WebRtcDeviceCommunicationManager {
    pub server_name: String,
    pub signalling_server_address: String,
}

impl WebRtcDeviceCommunicationManager {
    pub fn new(server_name: &str, signalling_server_address: &str) -> (r: Self)
        ensures
            r.server_name@ == server_name@,
            r.signalling_server_address@ == signalling_server_address@,
    {
        Self {
            server_name: server_name.to_owned(),
            signalling_server_address: signalling_server_address.to_owned(),
        }
    }

    pub fn name(&self) -> (r: &'static str)
        ensures
            r@ == "WebRTC Communication Manager"@,
    {
        "WebRTC Communication Manager"
    }

    /// A no-op that always succeeds: scanning is driven solely by the
    /// background task at startup, not re-triggerable here.
    pub fn start_scanning(&mut self) -> (r: Result<(), DeviceError>)
        ensures
            r is Ok,
            *final(self) == *old(self),
    {
        Ok(())
    }

    /// A no-op that always succeeds, like `start_scanning`.
    pub fn stop_scanning(&mut self) -> (r: Result<(), DeviceError>)
        ensures
            r is Ok,
            *final(self) == *old(self),
    {
        Ok(())
    }

    pub fn can_scan(&self) -> (r: bool)
        ensures
            r,
    {
        true
    }
}

/// One event of the remote client's stream, as the background task sees
/// it.
#[derive(Clone, PartialEq, Debug)]
pub enum ClientEvent {
    /// The remote scan reported a new device.
    DeviceAdded { name: String, index: u32 },
    /// A device left the remote side; nothing changes in this scope.
    DeviceRemoved { name: String, index: u32 },
    ScanningFinished,
    PingTimeout,
    ServerConnect,
    ServerDisconnect,
    /// A protocol error event: logged and swallowed, never fatal to the
    /// task.
    ProtocolError,
}

/// What the background task does for one client event.
#[derive(Clone, PartialEq, Debug)]
pub enum ManagerAction {
    /// Emit exactly one hardware-found event: the device's name, its
    /// synthetic address, and a fresh device proxy as the connector.
    EmitDeviceFound { name: String, address: String },
    /// Log the event; no state transition in this scope.
    LogOnly,
}

/// The action owed for one client event: exactly one hardware-found event
/// per discovered device, a logged no-op for everything else.
pub open spec fn client_event_action_ok(e: ClientEvent, a: ManagerAction) -> bool {
    match e {
        ClientEvent::DeviceAdded { name, index } => {
            a matches ManagerAction::EmitDeviceFound { name: found, address } && {
                &&& found@ == name@
                &&& address@ == device_address(index)
            }
        },
        _ => a is LogOnly,
    }
}

/// Decides the background task's response to one client event.
pub fn handle_client_event(event: &ClientEvent) -> (a: ManagerAction)
    ensures
        client_event_action_ok(*event, a),
{
    match event {
        ClientEvent::DeviceAdded { name, index } => {
            let address = format_device_address(*index);
            ManagerAction::EmitDeviceFound { name: name.clone(), address }
        },
        _ => ManagerAction::LogOnly,
    }
}

} // verus!
