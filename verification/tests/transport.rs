use netbridge::dispatch::{DispatchNote, PeerEvent, ServiceEvent};
use netbridge::identity::{
    convert_account_address_to_peer_id, convert_peer_id_to_account_address, AccountAddress, PeerId,
};
use netbridge::message::{DecodeError, Message, PayloadMsg};
use netbridge::service::{send_network_message, NetworkService};

fn addr(seed: u8) -> AccountAddress {
    AccountAddress::new(vec![seed; 16])
}

fn peer_of(a: &AccountAddress) -> PeerId {
    convert_account_address_to_peer_id(a).unwrap()
}

fn service_for(seed: u8) -> NetworkService {
    NetworkService::new(&peer_of(&addr(seed))).unwrap()
}

#[test]
fn payload_round_trip() {
    let bytes = Message::Payload(PayloadMsg { id: 7, data: b"hello".to_vec() }).into_bytes();
    match Message::from_bytes(&bytes).unwrap() {
        Message::Payload(p) => {
            assert_eq!(p.id, 7);
            assert_eq!(p.data, b"hello".to_vec());
        }
        _ => panic!("wrong kind"),
    }
}

#[test]
fn ack_round_trip() {
    let bytes = Message::ACK(99).into_bytes();
    match Message::from_bytes(&bytes).unwrap() {
        Message::ACK(id) => assert_eq!(id, 99),
        _ => panic!("wrong kind"),
    }
}

#[test]
fn decode_errors() {
    assert_eq!(Message::from_bytes(&[]).unwrap_err(), DecodeError::EmptyFrame);
    assert_eq!(Message::from_bytes(&[9u8, 0, 0]).unwrap_err(), DecodeError::UnknownTag);
    assert_eq!(Message::from_bytes(&[1u8, 0, 0]).unwrap_err(), DecodeError::LengthMismatch);
    let mut bad = Message::Payload(PayloadMsg { id: 1, data: b"xy".to_vec() }).into_bytes();
    bad.pop();
    assert_eq!(Message::from_bytes(&bad).unwrap_err(), DecodeError::LengthMismatch);
}

#[test]
fn identity_round_trip_and_failure() {
    let a = addr(3);
    let p = peer_of(&a);
    let back = convert_peer_id_to_account_address(&p).unwrap();
    assert!(back.same(&a));
    assert!(convert_account_address_to_peer_id(&AccountAddress::new(vec![1u8; 3])).is_err());
    assert!(convert_peer_id_to_account_address(&PeerId::new(vec![5u8; 4])).is_err());
}

#[test]
fn send_and_matching_ack_resolves_once() {
    let mut a = service_for(1);
    let b_addr = addr(2);
    let (mut rx, raw) = a.send_message(&b_addr, b"hello".to_vec());
    assert!(raw.peer_id.same(&peer_of(&b_addr)));
    // B receives the frame, hands back its inbound message and an auto-ack.
    let mut b = service_for(2);
    let out = b.handle_transport_event(ServiceEvent::CustomMessage {
        peer_id: peer_of(&addr(1)),
        message: raw.bytes,
    });
    let inbound = out.inbound.unwrap();
    assert!(inbound.peer_id.same(&addr(1)));
    assert_eq!(inbound.data, b"hello".to_vec());
    let reply = out.reply.unwrap();
    assert_eq!(rx.try_recv().unwrap(), None);
    // A observes the matching acknowledgment: the completion fires.
    let out = a.handle_transport_event(ServiceEvent::CustomMessage {
        peer_id: peer_of(&b_addr),
        message: reply.bytes.clone(),
    });
    assert!(out.fired.is_some());
    assert_eq!(rx.try_recv().unwrap(), Some(()));
    // A replayed acknowledgment is a late ack: a no-op.
    let out = a.handle_transport_event(ServiceEvent::CustomMessage {
        peer_id: peer_of(&b_addr),
        message: reply.bytes,
    });
    assert!(out.fired.is_none());
    assert_eq!(out.note, Some(DispatchNote::LateAck));
}

#[test]
fn wrong_id_ack_does_not_resolve() {
    let mut a = service_for(1);
    let (mut rx, _raw) = a.send_message(&addr(2), b"ping".to_vec());
    let out = a.handle_transport_event(ServiceEvent::CustomMessage {
        peer_id: peer_of(&addr(2)),
        message: Message::ACK(12345).into_bytes(),
    });
    assert!(out.fired.is_none());
    assert_eq!(out.note, Some(DispatchNote::LateAck));
    assert_eq!(rx.try_recv().unwrap(), None);
}

#[test]
fn shutdown_cancels_pending_send() {
    let mut a = service_for(1);
    let (mut rx, _raw) = a.send_message(&addr(2), b"ping".to_vec());
    drop(a);
    assert!(rx.try_recv().is_err());
}

#[test]
fn broadcast_one_send_per_connected_peer() {
    let a = service_for(1);
    let peers = vec![peer_of(&addr(2)), peer_of(&addr(3)), peer_of(&addr(4)), peer_of(&addr(2))];
    let sends = a.broadcast_message(b"x".to_vec(), &peers);
    assert_eq!(sends.len(), 3);
    // Every receiving node sees exactly the broadcast data, with no ack due.
    for s in sends {
        let mut n = service_for(9);
        let out = n.handle_transport_event(ServiceEvent::CustomMessage {
            peer_id: peer_of(&addr(1)),
            message: s.bytes,
        });
        assert_eq!(out.inbound.unwrap().data, b"x".to_vec());
        assert!(out.reply.is_none());
    }
}

#[test]
fn is_connected_false_for_never_connected() {
    let a = service_for(1);
    let connected = vec![peer_of(&addr(2))];
    assert!(a.is_connected(&addr(2), &connected));
    assert!(!a.is_connected(&addr(7), &connected));
    assert!(!a.is_connected(&AccountAddress::new(vec![1u8; 2]), &connected));
}

#[test]
fn peer_events_and_outbound_pump() {
    let mut a = service_for(1);
    let out = a.handle_transport_event(ServiceEvent::CustomProtocolOpen { peer_id: peer_of(&addr(5)) });
    match out.peer_event.unwrap() {
        PeerEvent::Open(who) => assert!(who.same(&addr(5))),
        _ => panic!("wrong event"),
    }
    let out = a.handle_transport_event(ServiceEvent::CustomProtocolClosed { peer_id: peer_of(&addr(5)) });
    match out.peer_event.unwrap() {
        PeerEvent::Close(who) => assert!(who.same(&addr(5))),
        _ => panic!("wrong event"),
    }
    let raw = send_network_message(netbridge::dispatch::NetworkMessage {
        peer_id: addr(5),
        data: b"q".to_vec(),
    })
    .unwrap();
    assert!(raw.peer_id.same(&peer_of(&addr(5))));
}

#[test]
fn poll_failure_transient_vs_dead() {
    let mut a = service_for(1);
    let out = a.handle_transport_event(ServiceEvent::PollFailure { fatal: false });
    assert_eq!(out.note, Some(DispatchNote::PollTransient));
    assert!(!out.is_terminal());
    let out = a.handle_transport_event(ServiceEvent::PollFailure { fatal: true });
    assert_eq!(out.note, Some(DispatchNote::TransportDead));
    assert!(out.is_terminal());
}

#[test]
fn broadcast_empty_snapshot_sends_nothing() {
    let a = service_for(1);
    let sends = a.broadcast_message(b"x".to_vec(), &Vec::new());
    assert!(sends.is_empty());
}
