//! The network service facade: the long-lived handle the rest of the node
//! talks to.
//!
//! It owns the acknowledgment table and the correlation-id allocator, and
//! decides every send: `send_message` frames an acknowledged payload and
//! registers its completion, `broadcast_message` frames one fire-and-forget
//! payload for every connected peer, `is_connected` answers connectivity
//! queries, `identify` reports the node's own address.  The transport
//! itself is driven by the host binary, which executes the [`RawSend`]
//! requests this module produces and feeds transport events to
//! [`crate::dispatch::handle_event`] with the table borrowed from here.
//!
//! Correlation ids are allocated from a strictly increasing per-service
//! counter, so an id is never reused while a send carrying it is still
//! outstanding: collision-freedom holds by construction.

use vstd::prelude::*;
use futures::channel::oneshot::Receiver;
use crate::acks::AckTable;
use crate::byteutil::copy_bytes;
use crate::dispatch::{handle_event, DispatchOutcome, NetworkMessage, RawSend, ServiceEvent};
use crate::identity::{
    convert_account_address_to_peer_id, convert_peer_id_to_account_address, spec_to_address,
    spec_to_peer_id, AccountAddress, IdentityError, PeerId,
};
use crate::message::{spec_encode, Message, MessageModel};

verus! {

/// Every send of a broadcast carries the one fire-and-forget frame: the
/// broadcast data under correlation id zero.
pub open spec fn broadcast_frames_ok(sends: Seq<RawSend>, data: Seq<u8>) -> bool {
    forall|i: int|
        0 <= i < sends.len() ==> (#[trigger] sends[i]).bytes@ == spec_encode(
            MessageModel::Payload { id: 0u128, data },
        )
}

/// No two sends of a broadcast address the same peer.
pub open spec fn broadcast_distinct(sends: Seq<RawSend>) -> bool {
    forall|i1: int, i2: int|
        0 <= i1 < i2 < sends.len() ==> sends[i1].peer_id@ != sends[i2].peer_id@
}

/// Whether some position of a snapshot holds a peer identifier with the
/// given bytes.
pub open spec fn snapshot_has_peer(peers: Seq<PeerId>, pid: Seq<u8>) -> bool {
    exists|j: int| 0 <= j < peers.len() && (#[trigger] peers[j])@ == pid
}

/// Whether some send of a broadcast addresses the given peer identifier.
pub open spec fn sends_have_target(sends: Seq<RawSend>, pid: Seq<u8>) -> bool {
    exists|i: int| 0 <= i < sends.len() && (#[trigger] sends[i]).peer_id@ == pid
}

/// Every send of a broadcast addresses a peer of the snapshot: nothing is
/// sent to a peer outside it, however soon it connects afterwards.
pub open spec fn broadcast_targets_within(sends: Seq<RawSend>, peers: Seq<PeerId>) -> bool {
    forall|i: int|
        0 <= i < sends.len() ==> snapshot_has_peer(peers, (#[trigger] sends[i]).peer_id@)
}

/// Every peer of the snapshot is addressed by some send of the broadcast.
pub open spec fn broadcast_covers(sends: Seq<RawSend>, peers: Seq<PeerId>) -> bool {
    forall|j: int|
        0 <= j < peers.len() ==> sends_have_target(sends, (#[trigger] peers[j])@)
}

/// The public-facing handle: the acknowledgment table, the correlation-id
/// allocator, and the node's own address.
pub struct NetworkService {
    acks: AckTable,
    next_id: u128,
    self_address: AccountAddress,
}

impl NetworkService {
    /// The ids of the sends whose acknowledgment is still outstanding, in
    /// registration order.
    pub closed spec fn pending(&self) -> Seq<u128> {
        self.acks@
    }

    /// The node's own address.
    pub closed spec fn own_address(&self) -> Seq<u8> {
        self.self_address@
    }

    /// The correlation id the next acknowledged send will carry.
    pub closed spec fn next_correlation_id(&self) -> u128 {
        self.next_id
    }

    /// The service invariant: the table holds each id at most once, every
    /// pending id is non-zero and below the allocator, and the own address
    /// is well-formed.  Constructors establish it and every method keeps
    /// it.
    pub closed spec fn wf(&self) -> bool {
        &&& self.acks.wf()
        &&& 1 <= self.next_id
        &&& forall|i: int|
            0 <= i < self.acks@.len() ==> 0 < #[trigger] self.acks@[i] < self.next_id
        &&& self.self_address.wf()
    }

    /// Builds the service core around the transport's own peer identifier.
    ///
    /// Fails exactly when that identifier is malformed; such a failure is a
    /// hard construction-time error for the node.
    pub fn new(self_peer: &PeerId) -> (r: Result<NetworkService, IdentityError>)
        ensures
            match r {
                Ok(s) => {
                    &&& self_peer.wf()
                    &&& s.wf()
                    &&& s.pending() == Seq::<u128>::empty()
                    &&& s.own_address() == spec_to_address(self_peer@)
                },
                Err(e) => !self_peer.wf() && e == IdentityError::BadPeerIdFormat,
            },
    {
        let self_address = convert_peer_id_to_account_address(self_peer)?;
        Ok(NetworkService { acks: AckTable::new(), next_id: 1, self_address })
    }

    /// The node's own address, as derived from the transport's self peer
    /// identifier at construction.
    pub fn identify(&self) -> (r: AccountAddress)
        ensures
            r@ == self.own_address(),
    {
        self.self_address.duplicate()
    }

    /// Whether the transport's connected-peer snapshot holds an open
    /// connection for the translated peer identifier of `address`.
    ///
    /// A malformed address yields `false`, not an error, exactly like a
    /// well-formed address that was never connected.
    pub fn is_connected(&self, address: &AccountAddress, connected_peers: &Vec<PeerId>) -> (r:
        bool)
        ensures
            r == (address.wf() && (exists|j: int|
                0 <= j < connected_peers@.len() && connected_peers@[j]@ == spec_to_peer_id(
                    address@,
                ))),
    {
        match convert_account_address_to_peer_id(address) {
            Err(_) => false,
            Ok(peer) => contains_peer(connected_peers, &peer),
        }
    }

    /// Whether the correlation-id space is spent; only then would
    /// [`Self::send_message`] be refused.
    pub fn ids_exhausted(&self) -> (r: bool)
        ensures
            r == (self.next_correlation_id() == u128::MAX),
    {
        self.next_id == u128::MAX
    }

    /// Frames `message` as a payload carrying a fresh non-zero correlation
    /// id, registers the id in the acknowledgment table, and returns the
    /// completion future together with the raw send for the host to issue.
    ///
    /// The completion resolves when the dispatcher observes the matching
    /// acknowledgment, and reports cancellation if the table is dropped
    /// first (service shutdown).
    pub fn send_message(&mut self, account_address: &AccountAddress, message: Vec<u8>) -> (r: (
        Receiver<()>,
        RawSend,
    ))
        requires
            old(self).wf(),
            account_address.wf(),
            old(self).next_correlation_id() < u128::MAX,
        ensures
            final(self).wf(),
            final(self).own_address() == old(self).own_address(),
            old(self).next_correlation_id() != 0,
            !old(self).pending().contains(old(self).next_correlation_id()),
            final(self).pending() == old(self).pending().push(old(self).next_correlation_id()),
            final(self).next_correlation_id() == old(self).next_correlation_id() + 1,
            r.1.peer_id@ == spec_to_peer_id(account_address@),
            r.1.bytes@ == spec_encode(
                MessageModel::Payload {
                    id: old(self).next_correlation_id(),
                    data: message@,
                },
            ),
    {
        let message_id = self.next_id;
        assert(!self.pending().contains(message_id)) by {
            if self.pending().contains(message_id) {
                let k = choose|k: int|
                    0 <= k < self.pending().len() && self.pending()[k] == message_id;
                assert(self.acks@[k] < self.next_id);
            }
        }
        self.next_id = self.next_id + 1;
        let rx = self.acks.register(message_id);
        let protocol_msg = Message::new_payload(message, message_id);
        let bytes = protocol_msg.into_bytes();
        let peer_id = match convert_account_address_to_peer_id(account_address) {
            Ok(p) => p,
            Err(_) => vstd::pervasive::unreached(),
        };
        (rx, RawSend { peer_id, bytes })
    }

    /// Snapshots nothing itself: the host passes the connected-peer set it
    /// read from the transport at call time.  Builds a single
    /// fire-and-forget payload (correlation id zero, no acknowledgment)
    /// and returns exactly one raw send per distinct peer of the snapshot,
    /// and none to a peer outside it: peers connecting after the snapshot
    /// get nothing, and a peer disconnecting during the iteration only
    /// fails its own send at the transport.
    #[verifier::rlimit(30)]
    pub fn broadcast_message(&self, message: Vec<u8>, connected_peers: &Vec<PeerId>) -> (r: Vec<
        RawSend,
    >)
        ensures
            broadcast_frames_ok(r@, message@),
            broadcast_distinct(r@),
            broadcast_targets_within(r@, connected_peers@),
            broadcast_covers(r@, connected_peers@),
    {
        let message_bytes = Message::new_message(message).into_bytes();
        let mut sends: Vec<RawSend> = Vec::new();
        let mut k: usize = 0;
        while k < connected_peers.len()
            invariant
                k <= connected_peers@.len(),
                broadcast_frames_ok(sends@, message@),
                broadcast_distinct(sends@),
                broadcast_targets_within(sends@, connected_peers@),
                forall|j: int|
                    0 <= j < k ==> sends_have_target(sends@, (#[trigger] connected_peers@[j])@),
                message_bytes@ == spec_encode(
                    MessageModel::Payload { id: 0u128, data: message@ },
                ),
            decreases connected_peers@.len() - k,
        {
            let peer = &connected_peers[k];
            let ghost prev = sends@;
            let present = sends_contain_peer(&sends, peer);
            if !present {
                sends.push(RawSend { peer_id: peer.duplicate(), bytes: copy_bytes(&message_bytes) });
            }
            proof {
                assert(peer@ == connected_peers@[k as int]@);
                if present {
                    assert(sends_have_target(sends@, connected_peers@[k as int]@));
                } else {
                    let last = prev.len() as int;
                    assert(sends@ == prev.push(sends@[last]));
                    assert(sends@[last].peer_id@ == peer@);
                    assert(sends_have_target(sends@, connected_peers@[k as int]@));
                    assert(broadcast_frames_ok(sends@, message@)) by {
                        assert forall|i: int| 0 <= i < sends@.len() implies (
                        #[trigger] sends@[i]).bytes@ == spec_encode(
                            MessageModel::Payload { id: 0u128, data: message@ },
                        ) by {
                            if i < last {
                                assert(sends@[i] == prev[i]);
                            }
                        }
                    }
                    assert(broadcast_distinct(sends@)) by {
                        assert forall|i1: int, i2: int| 0 <= i1 < i2 < sends@.len() implies sends@[i1].peer_id@ != sends@[i2].peer_id@ by {
                            if i2 == last {
                                if sends@[i1].peer_id@ == peer@ {
                                    assert(prev[i1].peer_id@ == peer@);
                                    assert(sends_have_target(prev, peer@));
                                }
                            }
                        }
                    }
                    assert(broadcast_targets_within(sends@, connected_peers@)) by {
                        assert(snapshot_has_peer(connected_peers@, peer@)) by {
                            assert(connected_peers@[k as int]@ == peer@);
                        }
                        assert forall|i: int| 0 <= i < sends@.len() implies snapshot_has_peer(
                            connected_peers@,
                            (#[trigger] sends@[i]).peer_id@,
                        ) by {
                            if i < last {
                                assert(sends@[i] == prev[i]);
                                assert(snapshot_has_peer(connected_peers@, prev[i].peer_id@));
                            }
                        }
                    }
                    assert forall|j: int| 0 <= j < k implies sends_have_target(
                        sends@,
                        (#[trigger] connected_peers@[j])@,
                    ) by {
                        let w = choose|i: int|
                            0 <= i < prev.len() && (#[trigger] prev[i]).peer_id@
                                == connected_peers@[j]@;
                        assert(sends@[w].peer_id@ == connected_peers@[j]@);
                    }
                }
            }
            k = k + 1;
        }
        proof {
            assert(broadcast_covers(sends@, connected_peers@)) by {
                assert forall|j: int| 0 <= j < connected_peers@.len() implies sends_have_target(
                    sends@,
                    (#[trigger] connected_peers@[j])@,
                ) by {}
            }
        }
        sends
    }

    /// Consumes one transport event against this service's acknowledgment
    /// table; the host's poll loop calls this for every event and then
    /// executes the outcome.
    pub fn handle_transport_event(&mut self, event: ServiceEvent) -> (out: DispatchOutcome)
        requires
            old(self).wf(),
        ensures
            final(self).wf(),
            final(self).own_address() == old(self).own_address(),
            final(self).next_correlation_id() == old(self).next_correlation_id(),
            crate::dispatch::dispatch_post(old(self).pending(), final(self).pending(), event, out),
    {
        let out = handle_event(&mut self.acks, event);
        proof {
            assert forall|i: int| 0 <= i < self.acks@.len() implies 0 < #[trigger] self.acks@[i]
                < self.next_id by {
                assert(old(self).pending().contains(self.acks@[i]) ==> exists|k: int|
                    0 <= k < old(self).acks@.len() && old(self).acks@[k] == self.acks@[i]);
                assert(self.acks@.contains(self.acks@[i]));
            }
        }
        out
    }
}

/// Whether a peer-identifier snapshot holds a given identifier.
fn contains_peer(peers: &Vec<PeerId>, p: &PeerId) -> (r: bool)
    ensures
        r == (exists|j: int| 0 <= j < peers@.len() && peers@[j]@ == p@),
{
    let mut k: usize = 0;
    while k < peers.len()
        invariant
            k <= peers@.len(),
            forall|j: int| 0 <= j < k ==> peers@[j]@ != p@,
        decreases peers@.len() - k,
    {
        if peers[k].same(p) {
            return true;
        }
        k = k + 1;
    }
    false
}

/// Whether a list of raw sends already addresses a given peer.
fn sends_contain_peer(sends: &Vec<RawSend>, p: &PeerId) -> (r: bool)
    ensures
        r == sends_have_target(sends@, p@),
{
    let mut k: usize = 0;
    while k < sends.len()
        invariant
            k <= sends@.len(),
            forall|i: int| 0 <= i < k ==> sends@[i].peer_id@ != p@,
        decreases sends@.len() - k,
    {
        if sends[k].peer_id.same(p) {
            assert(sends@[k as int].peer_id@ == p@);
            return true;
        }
        k = k + 1;
    }
    assert(!sends_have_target(sends@, p@)) by {
        if sends_have_target(sends@, p@) {
            let w = choose|i: int|
                0 <= i < sends@.len() && (#[trigger] sends@[i]).peer_id@ == p@;
            assert(sends@[w].peer_id@ != p@);
        }
    }
    false
}

/// One step of the outbound pump: translates the destination address and
/// frames the payload as a fire-and-forget send for the host to issue
/// through the transport.
///
/// A request whose address is malformed is refused with the error for the
/// host to log; the request is dropped, the caller is not notified.
pub fn send_network_message(message: NetworkMessage) -> (r: Result<RawSend, IdentityError>)
    ensures
        match r {
            Ok(raw) => {
                &&& message.peer_id.wf()
                &&& raw.peer_id@ == spec_to_peer_id(message.peer_id@)
                &&& raw.bytes@ == spec_encode(
                    MessageModel::Payload { id: 0u128, data: message.data@ },
                )
            },
            Err(e) => !message.peer_id.wf() && e == IdentityError::BadAddressLength,
        },
{
    let peer_id = convert_account_address_to_peer_id(&message.peer_id)?;
    let bytes = Message::new_message(message.data).into_bytes();
    Ok(RawSend { peer_id, bytes })
}

} // verus!
