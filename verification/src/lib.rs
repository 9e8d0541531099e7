//! A verified model of a peer-to-peer transport relay and device proxy:
//! the decision logic of a bridge between a remote-control protocol stack
//! and a WebRTC data-channel socket.
//!
//! The relay forwards serialized messages between the protocol stack's two
//! queues and the data-channel socket of exactly one peer — the first one
//! observed connected. The device proxy maps a remote device handle into
//! the local hardware capability set and plans write commands as remote
//! scalar-actuator calls. The discovery manager turns every remote device
//! discovery into exactly one local hardware-found event. The surrounding
//! runtime performs the I/O; every decision is taken here, under contract.

mod device;
mod manager;
mod messages;
mod relay;
mod text;

pub use device::{
    DeviceError, EVENT_STREAM_CAPACITY, Endpoint, HardwareDescriptor, RemoteDeviceHandle,
    WebRtcHardware, WebRtcHardwareConnector, WriteAction, decoded_scalar_of, device_address,
    format_device_address, lemma_malformed_write_ignored, lemma_scalar_write_forwarded,
    plan_from_decoded, plan_of_decoded, write_plan,
};
pub use manager::{
    ClientEvent, ManagerAction, WebRtcDeviceCommunicationManager,
    WebRtcDeviceCommunicationManagerBuilder, client_event_action_ok, handle_client_event,
};
pub use messages::SerializedMessage;
pub use relay::{
    ButtplugWebRtcTransport, RelayAction, RelayEvent, RelayState, first_connected_peer,
    lemma_active_peer_frozen,
    lemma_active_peer_is_first_connected, lemma_post_peer_outgoing_delivered,
    lemma_pre_peer_outgoing_dropped, lemma_run_ok_step, lemma_run_post_peer_delivers,
    lemma_run_pre_peer_never_sends, lemma_text_roundtrip, run_ok, run_state, step_actions_ok,
    step_state,
};
pub use text::{dec_digit_char, dec_digits, format_u32, lossy_decode_of};
