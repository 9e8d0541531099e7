//! The device proxy: adapts one remote device handle into the local
//! hardware capability set. It advertises a transmit and a receive channel,
//! plans local write commands as remote scalar-actuator calls, and reports
//! every other capability as unsupported.
//!
//! A write command is forwarded only when its payload is well-formed UTF-8
//! text that deserializes to a scalar command with at least one scalar;
//! any other payload is deliberately ignored (a narrow-protocol
//! compatibility shim, not an error the caller sees). The scalar magnitude
//! travels through the library as its raw bit pattern, so the library
//! itself never computes on the floating-point value.

use vstd::prelude::*;
use vstd::utf8::{valid_utf8, decode_utf8};

use crate::text::{dec_digits, format_u32, utf8_strict};

verus! {

/// How many device events the proxy's broadcast channel buffers for its
/// subscribers; a slow subscriber loses the oldest events rather than
/// blocking the publisher.
pub const EVENT_STREAM_CAPACITY: usize = 255;

/// An error of the device proxy. The read, subscribe and unsubscribe
/// capabilities are out of this library's scope and report it explicitly.
#[derive(Clone, Copy, PartialEq, Eq, Structural, Debug)]
pub enum DeviceError {
    UnsupportedOperation,
}

/// What this library knows of a device exposed by the remote peer: its
/// display name and its index on the remote side.
#[derive(Clone, PartialEq, Debug)]
pub struct RemoteDeviceHandle {
    pub name: String,
    pub index: u32,
}

/// One logical I/O channel a proxied device advertises.
#[derive(Clone, Copy, PartialEq, Eq, Structural, Debug)]
pub enum Endpoint {
    Tx,
    Rx,
}

/// The local-side description of a proxied device: display name, synthetic
/// address, and the advertised channels. Built once per discovery and
/// never mutated afterwards.
#[derive(Clone, PartialEq, Debug)]
pub struct HardwareDescriptor {
    pub name: String,
    pub address: String,
    pub endpoints: Vec<Endpoint>,
}

/// The synthetic address under which a remote device is registered
/// locally.
pub open spec fn device_address(index: u32) -> Seq<char> {
    "webrtc-device-"@ + dec_digits(index as nat)
}

/// Builds the synthetic address `webrtc-device-{index}`.
pub fn format_device_address(index: u32) -> (r: String)
    ensures
        r@ == device_address(index),
{
    let mut out: String = String::from_str("webrtc-device-");
    let digits = format_u32(index);
    out.append(digits.as_str());
    out
}

/// What the protocol stack's deserializer returns for a write-command
/// payload: the bit pattern of the first scalar where the text is a
/// serialized scalar command holding at least one scalar, and nothing
/// otherwise. The result depends on the text alone.
pub uninterp spec fn decoded_scalar_of(text: Seq<char>) -> Option<u64>;

/// Relies on `serde_json::from_str` for buttplug's device-command message
/// enum: deserialization is a function of the text alone, and a scalar
/// command carries its scalars in order.
#[verifier::external_body]
fn decode_scalar_command(text: &str) -> (r: Option<u64>)
    ensures
        r == decoded_scalar_of(text@),
{
    match serde_json::from_str::<buttplug::core::message::ButtplugDeviceCommandMessageUnion>(
        text,
    ) {
        Ok(buttplug::core::message::ButtplugDeviceCommandMessageUnion::ScalarCmd(cmd)) => {
            cmd.scalars().first().map(|sub| sub.scalar().to_bits())
        },
        _ => None,
    }
}

/// What a write command asks the proxy to do: forward one remote
/// scalar-actuator (vibration) call carrying the scalar's bit pattern, or
/// ignore the payload.
#[derive(Clone, Copy, PartialEq, Eq, Structural, Debug)]
pub enum WriteAction {
    Forward { scalar_bits: u64 },
    Ignore,
}

/// The action a decoded payload calls for.
pub open spec fn plan_of_decoded(decoded: Option<u64>) -> WriteAction {
    match decoded {
        Some(bits) => WriteAction::Forward { scalar_bits: bits },
        None => WriteAction::Ignore,
    }
}

/// The action a raw write-command payload calls for: forward exactly the
/// first scalar of a well-formed scalar command, ignore everything else.
pub open spec fn write_plan(payload: Seq<u8>) -> WriteAction {
    if valid_utf8(payload) {
        plan_of_decoded(decoded_scalar_of(decode_utf8(payload)))
    } else {
        WriteAction::Ignore
    }
}

/// Turns the deserializer's outcome into the planned action: one forward
/// for a scalar, nothing for anything else.
pub fn plan_from_decoded(decoded: Option<u64>) -> (r: WriteAction)
    ensures
        r == plan_of_decoded(decoded),
{
    match decoded {
        Some(bits) => WriteAction::Forward { scalar_bits: bits },
        None => WriteAction::Ignore,
    }
}

/// Law: a malformed write-command payload — not UTF-8, or text that is no
/// scalar command — is ignored: no remote call is planned for it.
pub proof fn lemma_malformed_write_ignored(payload: Seq<u8>)
    requires
        !valid_utf8(payload) || decoded_scalar_of(decode_utf8(payload)) is None,
    ensures
        write_plan(payload) == WriteAction::Ignore,
{
}

/// Law: a well-formed scalar-command payload with first scalar bits `bits`
/// plans exactly one forwarded vibration call carrying `bits`.
pub proof fn lemma_scalar_write_forwarded(payload: Seq<u8>, bits: u64)
    requires
        valid_utf8(payload),
        decoded_scalar_of(decode_utf8(payload)) == Some(bits),
    ensures
        write_plan(payload) == (WriteAction::Forward { scalar_bits: bits }),
{
}

/// Adapts one remote device handle for the local hardware registry.
pub struct WebRtcHardwareConnector {
    pub device: RemoteDeviceHandle,
}

impl WebRtcHardwareConnector {
    pub fn new(device: RemoteDeviceHandle) -> (r: Self)
        ensures
            r.device == device,
    {
        Self { device }
    }

    /// The fixed logical protocol tag under which this proxy type is
    /// discoverable.
    pub fn specifier(&self) -> (r: &'static str)
        ensures
            r@ == "webrtc"@,
    {
        "webrtc"
    }

    /// Builds the descriptor for the proxied device: its name, the
    /// synthetic address, and the transmit/receive channels. Needs no real
    /// negotiation and always succeeds.
    pub fn connect(&self) -> (r: Result<HardwareDescriptor, DeviceError>)
        ensures
            r matches Ok(d) ==> {
                &&& d.name@ == self.device.name@
                &&& d.address@ == device_address(self.device.index)
                &&& d.endpoints@ =~= seq![Endpoint::Tx, Endpoint::Rx]
            },
            r is Ok,
    {
        let name = self.device.name.clone();
        let address = format_device_address(self.device.index);
        let mut endpoints: Vec<Endpoint> = Vec::new();
        endpoints.push(Endpoint::Tx);
        endpoints.push(Endpoint::Rx);
        Ok(HardwareDescriptor { name, address, endpoints })
    }
}

/// The capability set of one proxied device.
pub struct WebRtcHardware {
    pub device: RemoteDeviceHandle,
}

impl WebRtcHardware {
    pub fn new(device: RemoteDeviceHandle) -> (r: Self)
        ensures
            r.device == device,
    {
        Self { device }
    }

    /// Always succeeds and changes nothing: the underlying remote
    /// connection is owned elsewhere, so this proxy has no teardown of its
    /// own. Calling it any number of times keeps succeeding.
    pub fn disconnect(&self) -> (r: Result<(), DeviceError>)
        ensures
            r is Ok,
    {
        Ok(())
    }

    /// Reading is out of this library's scope.
    pub fn read_value(&self) -> (r: Result<Vec<u8>, DeviceError>)
        ensures
            r == Err::<Vec<u8>, DeviceError>(DeviceError::UnsupportedOperation),
    {
        Err(DeviceError::UnsupportedOperation)
    }

    /// Subscribing is out of this library's scope.
    pub fn subscribe(&self) -> (r: Result<(), DeviceError>)
        ensures
            r == Err::<(), DeviceError>(DeviceError::UnsupportedOperation),
    {
        Err(DeviceError::UnsupportedOperation)
    }

    /// Unsubscribing is out of this library's scope.
    pub fn unsubscribe(&self) -> (r: Result<(), DeviceError>)
        ensures
            r == Err::<(), DeviceError>(DeviceError::UnsupportedOperation),
    {
        Err(DeviceError::UnsupportedOperation)
    }

    /// Plans a local write command: forward the first scalar of a
    /// well-formed scalar command as one remote vibration call, and ignore
    /// any other payload without failing the caller.
    pub fn write_value(&self, payload: &Vec<u8>) -> (r: WriteAction)
        ensures
            r == write_plan(payload@),
    {
        match utf8_strict(payload) {
            Some(text) => plan_from_decoded(decode_scalar_command(text.as_str())),
            None => WriteAction::Ignore,
        }
    }
}

} // verus!
