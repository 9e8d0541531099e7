//! Plain message payloads that the relay forwards between the protocol
//! stack's queues and the data-channel socket. The relay never interprets
//! them: a payload is either textual or binary, and forwarding turns a
//! textual payload into its UTF-8 bytes.

use vstd::prelude::*;
use vstd::utf8::encode_utf8;

verus! {

/// A serialized protocol message drained from the outgoing queue.
#[derive(Clone, PartialEq, Debug)]
pub enum SerializedMessage {
    Text(String),
    Binary(Vec<u8>),
}

impl SerializedMessage {
    /// The raw bytes that the relay pushes onto the socket for this message.
    pub open spec fn bytes(self) -> Seq<u8> {
        match self {
            SerializedMessage::Text(t) => encode_utf8(t@),
            SerializedMessage::Binary(b) => b@,
        }
    }

    /// Turns the message into the raw packet payload the socket carries.
    pub fn into_bytes(self) -> (r: Vec<u8>)
        ensures
            r@ == self.bytes(),
    {
        match self {
            SerializedMessage::Text(t) => t.as_str().as_bytes_vec(),
            SerializedMessage::Binary(b) => b,
        }
    }
}

} // verus!
