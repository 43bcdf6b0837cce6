//! The event dispatcher: the single place that decides what the node does
//! with each transport-level event.
//!
//! The host binary polls the transport on its dedicated background loop and
//! hands every event to [`handle_event`], which returns the complete
//! outcome as data: the inbound message to enqueue, the acknowledgment
//! frame to send back, the peer event to emit, the correlation id whose
//! completion fired, and the note to log.  The host performs the queue
//! pushes and the raw send; every decision is made, and proved, here.
//! Per-event failures (malformed frames, unknown peers, late
//! acknowledgments) are isolated: they produce a note and drop the event,
//! never a panic.

use vstd::prelude::*;
use crate::acks::{resolve_post, AckTable};
use crate::identity::{
    convert_peer_id_to_account_address, spec_to_address, AccountAddress, PeerId,
};
use crate::message::{spec_decode, spec_encode, Message, MessageModel};

verus! {

/// An application-level message as the node's upper layers see it: the
/// counterpart node's address and the opaque payload bytes.
#[derive(Debug)]
pub struct NetworkMessage {
    pub peer_id: AccountAddress,
    pub data: Vec<u8>,
}

/// A connectivity notification for the node's upper layers, emitted once
/// per connection-open and once per connection-close, in transport order.
#[derive(Debug)]
pub enum PeerEvent {
    Open(AccountAddress),
    Close(AccountAddress),
}

/// A raw send request against the transport: a frame for a given peer.
#[derive(Debug)]
pub struct RawSend {
    pub peer_id: PeerId,
    pub bytes: Vec<u8>,
}

/// A transport-level event, as the host's poll loop hands it over.
#[derive(Debug)]
pub enum ServiceEvent {
    /// A frame arrived from a peer on the custom-message channel.
    CustomMessage { peer_id: PeerId, message: Vec<u8> },
    /// A connection to a peer opened.
    CustomProtocolOpen { peer_id: PeerId },
    /// A connection to a peer closed.
    CustomProtocolClosed { peer_id: PeerId },
    /// The transport reports outbound-queue congestion; log only.
    Clogged,
    /// The transport's poll reported a failure; `fatal` says whether the
    /// transport can ever recover.  A transient failure is logged and the
    /// poll loop goes on; a fatal one is the terminal condition on which
    /// the host tears the loop down.
    PollFailure { fatal: bool },
}

/// A per-event condition worth logging; the event itself is dropped.
#[derive(Debug, Clone, Copy, PartialEq, Eq, Structural)]
pub enum DispatchNote {
    /// The frame did not decode; the connection stays open.
    DecodeFailed,
    /// The peer identifier did not translate to an address.
    UnknownPeer,
    /// An acknowledgment arrived for an id that is not pending.
    LateAck,
    /// The transport reported congestion; no queue action is taken.
    Congested,
    /// The transport's poll failed but may recover; the loop polls again.
    PollTransient,
    /// The transport can never recover; the background loop must end.
    TransportDead,
}

/// Everything one event amounts to.  At most one of the fields is set for
/// a dropped event; an inbound payload may set both the message and the
/// acknowledgment to send back.
#[derive(Debug)]
pub struct DispatchOutcome {
    /// The message to push on the inbound queue.
    pub inbound: Option<NetworkMessage>,
    /// The acknowledgment frame to send back to the originating peer.
    pub reply: Option<RawSend>,
    /// The connectivity event to push on the peer-event queue.
    pub peer_event: Option<PeerEvent>,
    /// The correlation id whose completion signal fired.
    pub fired: Option<u128>,
    /// The condition to log.
    pub note: Option<DispatchNote>,
}

/// An outcome that only logs a note: nothing is enqueued, sent or fired.
pub open spec fn outcome_is_note(out: DispatchOutcome, note: DispatchNote) -> bool {
    &&& out.inbound is None
    &&& out.reply is None
    &&& out.peer_event is None
    &&& out.fired is None
    &&& out.note == Some(note)
}

/// The dispatcher's whole contract: how the pending-acknowledgment ids and
/// the outcome relate to the event.
pub open spec fn dispatch_post(
    pre: Seq<u128>,
    post: Seq<u128>,
    event: ServiceEvent,
    out: DispatchOutcome,
) -> bool {
    match event {
        ServiceEvent::CustomMessage { peer_id, message } => match spec_decode(message@) {
            None => post == pre && outcome_is_note(out, DispatchNote::DecodeFailed),
            Some(MessageModel::Payload { id, data }) => if peer_id.wf() {
                &&& post == pre
                &&& out.peer_event is None
                &&& out.fired is None
                &&& out.note is None
                &&& (out.inbound matches Some(nm) && nm.peer_id@ == spec_to_address(peer_id@)
                    && nm.data@ == data)
                &&& (id != 0 ==> (out.reply matches Some(r) && r.peer_id@ == peer_id@
                    && r.bytes@ == spec_encode(MessageModel::Ack { id })))
                &&& (id == 0 ==> out.reply is None)
            } else {
                post == pre && outcome_is_note(out, DispatchNote::UnknownPeer)
            },
            Some(MessageModel::Ack { id }) => {
                &&& out.inbound is None
                &&& out.reply is None
                &&& out.peer_event is None
                &&& resolve_post(pre, post, id, pre.contains(id))
                &&& (pre.contains(id) ==> out.fired == Some(id) && out.note is None)
                &&& (!pre.contains(id) ==> out.fired is None && out.note == Some(
                    DispatchNote::LateAck,
                ))
            },
        },
        ServiceEvent::CustomProtocolOpen { peer_id } => {
            &&& post == pre
            &&& if peer_id.wf() {
                &&& out.inbound is None
                &&& out.reply is None
                &&& out.fired is None
                &&& out.note is None
                &&& (out.peer_event matches Some(PeerEvent::Open(a)) && a@ == spec_to_address(
                    peer_id@,
                ))
            } else {
                outcome_is_note(out, DispatchNote::UnknownPeer)
            }
        },
        ServiceEvent::CustomProtocolClosed { peer_id } => {
            &&& post == pre
            &&& if peer_id.wf() {
                &&& out.inbound is None
                &&& out.reply is None
                &&& out.fired is None
                &&& out.note is None
                &&& (out.peer_event matches Some(PeerEvent::Close(a)) && a@ == spec_to_address(
                    peer_id@,
                ))
            } else {
                outcome_is_note(out, DispatchNote::UnknownPeer)
            }
        },
        ServiceEvent::Clogged => post == pre && outcome_is_note(out, DispatchNote::Congested),
        ServiceEvent::PollFailure { fatal } => post == pre && (if fatal {
            outcome_is_note(out, DispatchNote::TransportDead)
        } else {
            outcome_is_note(out, DispatchNote::PollTransient)
        }),
    }
}

impl DispatchOutcome {
    /// Whether the outcome is the terminal condition: the transport
    /// reported a failure it can never recover from, so the host's
    /// background loop must end instead of polling again.
    pub fn is_terminal(&self) -> (r: bool)
        ensures
            r == (self.note == Some(DispatchNote::TransportDead)),
    {
        match self.note {
            Some(DispatchNote::TransportDead) => true,
            _ => false,
        }
    }
}

/// An outcome with nothing set; the fields an event decides are then
/// filled in.
fn empty_outcome() -> (out: DispatchOutcome)
    ensures
        out.inbound is None,
        out.reply is None,
        out.peer_event is None,
        out.fired is None,
        out.note is None,
{
    DispatchOutcome { inbound: None, reply: None, peer_event: None, fired: None, note: None }
}

/// Consumes one transport event and decides everything the node does with
/// it, resolving the acknowledgment table where the event is an
/// acknowledgment.
pub fn handle_event(acks: &mut AckTable, event: ServiceEvent) -> (out: DispatchOutcome)
    requires
        old(acks).wf(),
    ensures
        final(acks).wf(),
        dispatch_post(old(acks)@, final(acks)@, event, out),
{
    match event {
        ServiceEvent::CustomMessage { peer_id, message } => {
            match Message::from_bytes(message.as_slice()) {
                Err(_) => {
                    let mut out = empty_outcome();
                    out.note = Some(DispatchNote::DecodeFailed);
                    out
                },
                Ok(Message::Payload(payload)) => {
                    match convert_peer_id_to_account_address(&peer_id) {
                        Err(_) => {
                            let mut out = empty_outcome();
                            out.note = Some(DispatchNote::UnknownPeer);
                            out
                        },
                        Ok(address) => {
                            let mut out = empty_outcome();
                            let id = payload.id;
                            out.inbound = Some(
                                NetworkMessage { peer_id: address, data: payload.data },
                            );
                            if id != 0 {
                                let ack_bytes = Message::ACK(id).into_bytes();
                                out.reply = Some(RawSend { peer_id, bytes: ack_bytes });
                            }
                            out
                        },
                    }
                },
                Ok(Message::ACK(id)) => {
                    let fired = acks.resolve(id);
                    let mut out = empty_outcome();
                    if fired {
                        out.fired = Some(id);
                    } else {
                        out.note = Some(DispatchNote::LateAck);
                    }
                    out
                },
            }
        },
        ServiceEvent::CustomProtocolOpen { peer_id } => {
            match convert_peer_id_to_account_address(&peer_id) {
                Err(_) => {
                    let mut out = empty_outcome();
                    out.note = Some(DispatchNote::UnknownPeer);
                    out
                },
                Ok(address) => {
                    let mut out = empty_outcome();
                    out.peer_event = Some(PeerEvent::Open(address));
                    out
                },
            }
        },
        ServiceEvent::CustomProtocolClosed { peer_id } => {
            match convert_peer_id_to_account_address(&peer_id) {
                Err(_) => {
                    let mut out = empty_outcome();
                    out.note = Some(DispatchNote::UnknownPeer);
                    out
                },
                Ok(address) => {
                    let mut out = empty_outcome();
                    out.peer_event = Some(PeerEvent::Close(address));
                    out
                },
            }
        },
        ServiceEvent::Clogged => {
            let mut out = empty_outcome();
            out.note = Some(DispatchNote::Congested);
            out
        },
        ServiceEvent::PollFailure { fatal } => {
            let mut out = empty_outcome();
            if fatal {
                out.note = Some(DispatchNote::TransportDead);
            } else {
                out.note = Some(DispatchNote::PollTransient);
            }
            out
        },
    }
}

/// Law: an acknowledgment only ever resolves the completion it names.  An
/// acknowledged send that is pending as `id` is untouched by an
/// acknowledgment frame for a different id: `id` stays pending and its
/// completion does not fire.
pub proof fn lemma_ack_matches_only_its_id(
    pre: Seq<u128>,
    post: Seq<u128>,
    event: ServiceEvent,
    out: DispatchOutcome,
    id: u128,
    other: u128,
)
    requires
        dispatch_post(pre, post, event, out),
        pre.contains(id),
        (event matches ServiceEvent::CustomMessage { peer_id, message } && spec_decode(message@)
            == Some(MessageModel::Ack { id: other })),
        other != id,
    ensures
        post.contains(id),
        out.fired != Some(id),
{
}

/// Law: the acknowledgment frame that names a pending send resolves it,
/// fires its completion, and a repeat of the same frame afterwards fires
/// nothing: the completion fires at most once however often the
/// acknowledgment is replayed.
pub proof fn lemma_matching_ack_fires_once(
    pre: Seq<u128>,
    mid: Seq<u128>,
    post: Seq<u128>,
    event: ServiceEvent,
    out_first: DispatchOutcome,
    out_second: DispatchOutcome,
    id: u128,
)
    requires
        pre.contains(id),
        dispatch_post(pre, mid, event, out_first),
        dispatch_post(mid, post, event, out_second),
        (event matches ServiceEvent::CustomMessage { peer_id, message } && spec_decode(message@)
            == Some(MessageModel::Ack { id })),
    ensures
        out_first.fired == Some(id),
        !mid.contains(id),
        out_second.fired is None,
        post == mid,
{
}

} // verus!
