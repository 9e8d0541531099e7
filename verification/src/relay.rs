//! The transport relay: a duplex bridge between the protocol stack's
//! outgoing/incoming message queues and a peer-to-peer data-channel socket.
//!
//! The relay's loop is modelled as a state machine: the surrounding runtime
//! polls the socket and the queues and hands each observation to
//! [`RelayState::step`] as a [`RelayEvent`]; the step returns the
//! [`RelayAction`]s the runtime must perform. The state records the single
//! active peer — the first peer ever observed connected, frozen for the
//! relay's lifetime — and whether the session has ended.
//!
//! Outgoing messages drained before any peer is known are dropped, not
//! buffered; once a peer exists, each drained message is sent to it in
//! order. Every inbound packet is published as text, decoded leniently.

use vstd::prelude::*;
use vstd::utf8::{valid_utf8, decode_utf8, encode_utf8, encode_utf8_valid_utf8,
    encode_utf8_decode_utf8};

use crate::messages::SerializedMessage;
use crate::text::{lossy_decode_of, utf8_lossy};

verus! {

/// The task-local state of one relay loop.
#[derive(Clone, Copy, PartialEq, Eq, Structural, Debug)]
pub struct RelayState {
    /// The peer all outgoing messages are addressed to: the first peer
    /// observed connected. Later peer updates never change it.
    pub active_peer: Option<u128>,
    /// Whether the relay has ended (socket session over, or the outgoing
    /// queue closed).
    pub finished: bool,
}

/// One observation the runtime hands to the relay loop.
#[derive(Clone, PartialEq, Debug)]
pub enum RelayEvent {
    /// A peer's connection state changed.
    PeerUpdate { peer: u128, connected: bool },
    /// A raw packet arrived on the socket.
    Inbound { payload: Vec<u8> },
    /// The periodic timer fired; the loop only stays responsive.
    Tick,
    /// The socket's own session future completed: the relay is over.
    SessionEnded,
    /// A message was drained from the outgoing queue.
    Outgoing { message: SerializedMessage },
    /// The outgoing queue closed: the relay is over.
    OutgoingClosed,
}

/// One effect the runtime must perform for a step.
#[derive(Clone, PartialEq, Debug)]
pub enum RelayAction {
    /// Wake the caller suspended in connect: the first peer arrived.
    SignalPeerWaiter,
    /// Publish one incoming message carrying this text.
    PublishIncoming { text: String },
    /// Push one raw packet to the socket, addressed to the active peer.
    SendPacket { peer: u128, payload: Vec<u8> },
}

impl RelayState {
    /// The state a relay starts in: no peer yet, running.
    pub open spec fn init() -> RelayState {
        RelayState { active_peer: None, finished: false }
    }

    pub fn new() -> (r: RelayState)
        ensures
            r == RelayState::init(),
    {
        RelayState { active_peer: None, finished: false }
    }
}

/// The relay's state after one event.
pub open spec fn step_state(s: RelayState, e: RelayEvent) -> RelayState {
    match e {
        RelayEvent::PeerUpdate { peer, connected } => {
            if connected && s.active_peer is None {
                RelayState { active_peer: Some(peer), finished: s.finished }
            } else {
                s
            }
        },
        RelayEvent::SessionEnded => RelayState { active_peer: s.active_peer, finished: true },
        RelayEvent::OutgoingClosed => RelayState { active_peer: s.active_peer, finished: true },
        _ => s,
    }
}

/// The actions one step owes the runtime, given the state it started from.
pub open spec fn step_actions_ok(s: RelayState, e: RelayEvent, actions: Seq<RelayAction>) -> bool {
    match e {
        RelayEvent::PeerUpdate { peer, connected } => {
            if connected && s.active_peer is None {
                actions =~= seq![RelayAction::SignalPeerWaiter]
            } else {
                actions.len() == 0
            }
        },
        RelayEvent::Inbound { payload } => {
            &&& actions.len() == 1
            &&& actions[0] matches RelayAction::PublishIncoming { text } && {
                &&& text@ == lossy_decode_of(payload@)
                &&& valid_utf8(payload@) ==> text@ == decode_utf8(payload@)
            }
        },
        RelayEvent::Outgoing { message } => {
            match s.active_peer {
                Some(p) => {
                    &&& actions.len() == 1
                    &&& actions[0] matches RelayAction::SendPacket { peer, payload } && {
                        &&& peer == p
                        &&& payload@ == message.bytes()
                    }
                },
                None => actions.len() == 0,
            }
        },
        _ => actions.len() == 0,
    }
}

impl RelayState {
    /// One turn of the relay loop: update the state for the event and
    /// return the actions the runtime must perform.
    pub fn step(&mut self, event: RelayEvent) -> (actions: Vec<RelayAction>)
        ensures
            *final(self) == step_state(*old(self), event),
            step_actions_ok(*old(self), event, actions@),
    {
        let mut actions: Vec<RelayAction> = Vec::new();
        match event {
            RelayEvent::PeerUpdate { peer, connected } => {
                if connected && self.active_peer.is_none() {
                    self.active_peer = Some(peer);
                    actions.push(RelayAction::SignalPeerWaiter);
                }
            },
            RelayEvent::Inbound { payload } => {
                let text = utf8_lossy(&payload);
                actions.push(RelayAction::PublishIncoming { text });
            },
            RelayEvent::Tick => {},
            RelayEvent::SessionEnded => {
                self.finished = true;
            },
            RelayEvent::Outgoing { message } => {
                match self.active_peer {
                    Some(p) => {
                        let payload = message.into_bytes();
                        actions.push(RelayAction::SendPacket { peer: p, payload });
                    },
                    None => {},
                }
            },
            RelayEvent::OutgoingClosed => {
                self.finished = true;
            },
        }
        actions
    }
}

/// The connector-transport configuration: which rendezvous address the
/// socket is opened against, and an unused room label. The surrounding
/// runtime owns the socket and the relay loop; this value only carries the
/// configuration and the documented no-op teardown.
pub struct ButtplugWebRtcTransport {
    pub room_name: String,
    pub signalling_server_address: String,
}

impl ButtplugWebRtcTransport {
    pub fn new(signalling_server_address: &str, room_name: &str) -> (r: Self)
        ensures
            r.signalling_server_address@ == signalling_server_address@,
            r.room_name@ == room_name@,
    {
        Self {
            room_name: room_name.to_owned(),
            signalling_server_address: signalling_server_address.to_owned(),
        }
    }

    /// Always succeeds and changes nothing: the relay's loop is not torn
    /// down — a documented limitation of this scope, not an oversight.
    /// Calling it any number of times keeps succeeding.
    pub fn disconnect(&self) -> (r: Result<(), crate::device::DeviceError>)
        ensures
            r is Ok,
    {
        Ok(())
    }
}

/// The state after a whole sequence of events, first event first.
pub open spec fn run_state(s: RelayState, events: Seq<RelayEvent>) -> RelayState
    decreases events.len(),
{
    if events.len() == 0 {
        s
    } else {
        run_state(step_state(s, events[0]), events.drop_first())
    }
}

/// The peer of the first connection observed in `events`, if any.
pub open spec fn first_connected_peer(events: Seq<RelayEvent>) -> Option<u128>
    decreases events.len(),
{
    if events.len() == 0 {
        None
    } else {
        match events[0] {
            RelayEvent::PeerUpdate { peer, connected } => {
                if connected {
                    Some(peer)
                } else {
                    first_connected_peer(events.drop_first())
                }
            },
            _ => first_connected_peer(events.drop_first()),
        }
    }
}

/// Law: once an active peer is recorded, no sequence of further events
/// ever changes it.
pub proof fn lemma_active_peer_frozen(s: RelayState, events: Seq<RelayEvent>)
    requires
        s.active_peer is Some,
    ensures
        run_state(s, events).active_peer == s.active_peer,
    decreases events.len(),
{
    if events.len() > 0 {
        lemma_active_peer_frozen(step_state(s, events[0]), events.drop_first());
    }
}

/// Law: over any sequence of events, a relay records exactly one active
/// peer — the first peer observed connected — or none where no connection
/// was ever observed.
pub proof fn lemma_active_peer_is_first_connected(s: RelayState, events: Seq<RelayEvent>)
    requires
        s.active_peer is None,
    ensures
        run_state(s, events).active_peer == first_connected_peer(events),
    decreases events.len(),
{
    if events.len() > 0 {
        let s1 = step_state(s, events[0]);
        if s1.active_peer is Some {
            lemma_active_peer_frozen(s1, events.drop_first());
        } else {
            lemma_active_peer_is_first_connected(s1, events.drop_first());
        }
    }
}

/// A whole run of the relay loop: for each event in turn, the step's
/// actions met their obligation for the state the step started from.
pub open spec fn run_ok(
    s: RelayState,
    events: Seq<RelayEvent>,
    actionss: Seq<Seq<RelayAction>>,
) -> bool
    decreases events.len(),
{
    &&& actionss.len() == events.len()
    &&& events.len() > 0 ==> {
        &&& step_actions_ok(s, events[0], actionss[0])
        &&& run_ok(step_state(s, events[0]), events.drop_first(), actionss.drop_first())
    }
}

/// In a run, the actions of the step at `i` met their obligation for the
/// state reached by the events before `i`.
pub proof fn lemma_run_ok_step(
    s: RelayState,
    events: Seq<RelayEvent>,
    actionss: Seq<Seq<RelayAction>>,
    i: int,
)
    requires
        run_ok(s, events, actionss),
        0 <= i < events.len(),
    ensures
        step_actions_ok(run_state(s, events.take(i)), events[i], actionss[i]),
    decreases i,
{
    if i == 0 {
        assert(events.take(0) =~= Seq::<RelayEvent>::empty());
    } else {
        lemma_run_ok_step(
            step_state(s, events[0]),
            events.drop_first(),
            actionss.drop_first(),
            i - 1,
        );
        assert(events.drop_first().take(i - 1) =~= events.take(i).drop_first());
    }
}

/// Law: in any run of a fresh relay, an outgoing message drained before
/// the first peer connection was observed is dropped: its step performs no
/// action, then or later.
pub proof fn lemma_run_pre_peer_never_sends(
    s: RelayState,
    events: Seq<RelayEvent>,
    actionss: Seq<Seq<RelayAction>>,
    i: int,
)
    requires
        run_ok(s, events, actionss),
        s.active_peer is None,
        0 <= i < events.len(),
        first_connected_peer(events.take(i)) is None,
        events[i] is Outgoing,
    ensures
        actionss[i].len() == 0,
{
    lemma_run_ok_step(s, events, actionss, i);
    lemma_active_peer_is_first_connected(s, events.take(i));
}

/// Law: in any run of a fresh relay, delivery resumes once a peer exists:
/// an outgoing message drained after the first peer connection was
/// observed is sent, as its bytes, to exactly that first peer.
pub proof fn lemma_run_post_peer_delivers(
    s: RelayState,
    events: Seq<RelayEvent>,
    actionss: Seq<Seq<RelayAction>>,
    i: int,
    p: u128,
)
    requires
        run_ok(s, events, actionss),
        s.active_peer is None,
        0 <= i < events.len(),
        first_connected_peer(events.take(i)) == Some(p),
        events[i] is Outgoing,
    ensures
        actionss[i].len() == 1,
        actionss[i][0] matches RelayAction::SendPacket { peer, payload } && peer == p && payload@
            == events[i]->Outgoing_message.bytes(),
{
    lemma_run_ok_step(s, events, actionss, i);
    lemma_active_peer_is_first_connected(s, events.take(i));
}

/// Law: an outgoing message drained before any peer is known is dropped:
/// the step performs no action at all, and in particular sends nothing,
/// then or later — the message is gone, not buffered.
pub proof fn lemma_pre_peer_outgoing_dropped(
    s: RelayState,
    message: SerializedMessage,
    actions: Seq<RelayAction>,
)
    requires
        s.active_peer is None,
        step_actions_ok(s, RelayEvent::Outgoing { message }, actions),
    ensures
        actions.len() == 0,
        step_state(s, RelayEvent::Outgoing { message }) == s,
{
}

/// Law: once a peer is active, each drained outgoing message is delivered:
/// the step sends exactly that message's bytes to exactly that peer.
pub proof fn lemma_post_peer_outgoing_delivered(
    s: RelayState,
    p: u128,
    message: SerializedMessage,
    actions: Seq<RelayAction>,
)
    requires
        s.active_peer == Some(p),
        step_actions_ok(s, RelayEvent::Outgoing { message }, actions),
    ensures
        actions.len() == 1,
        actions[0] matches RelayAction::SendPacket { peer, payload } && peer == p && payload@
            == message.bytes(),
{
}

/// Law: a textual message round-trips through the relay: its outgoing
/// packet bytes are well-formed UTF-8 and decode back to the same text, so
/// a peer relaying them straight back has them published unchanged.
pub proof fn lemma_text_roundtrip(t: Seq<char>)
    ensures
        valid_utf8(encode_utf8(t)),
        decode_utf8(encode_utf8(t)) == t,
{
    encode_utf8_valid_utf8(t);
    encode_utf8_decode_utf8(t);
}

} // verus!
