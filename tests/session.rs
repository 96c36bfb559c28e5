use quickscreen::fragment::{split_for_sending, MAX_UDP_SEND_SIZE};
use quickscreen::host::{
    frame_datagrams, handle_client_left, handle_datagram, handle_join_request,
    handle_join_request_response, handle_network_message, HostingState, HostingToUIMessage,
};
use quickscreen::join::{
    handle_frame, handle_join_request_response as peer_handle_response, JoinedToUIMessage,
    PeerSession,
};
use quickscreen::network::{
    Address, ClientID, ClientToHostNetworkMessage, HostToClientNetworkMessage, NetworkFrame,
};

fn peer_address() -> Address {
    Address::V4(0xC0A80002, 1235)
}

fn feed(peer: &mut PeerSession, datagram: &[u8]) -> quickscreen::join::PeerStep {
    let mut buffer = vec![0u8; MAX_UDP_SEND_SIZE];
    buffer[..datagram.len()].copy_from_slice(datagram);
    peer.receive_datagram(&buffer, datagram.len())
}

#[test]
fn accepted_join_reaches_peer() {
    let mut host = HostingState::new();
    let mut peer = PeerSession::new(ClientID(42));
    let request = peer.join_request();
    assert_eq!(
        handle_datagram(&request, peer_address(), &mut host),
        Some(HostingToUIMessage::JoinRequest(ClientID(42)))
    );
    assert!(host.is_pending(ClientID(42)));
    let answer = handle_join_request_response(ClientID(42), true, &mut host);
    assert!(host.is_accepted(ClientID(42)));
    assert!(!host.is_pending(ClientID(42)));
    assert_eq!(answer.address, peer_address());
    assert_eq!(host.accepted_addresses(), vec![peer_address()]);
    let step = feed(&mut peer, &answer.bytes);
    assert!(matches!(step.event, Some(JoinedToUIMessage::JoinRequestResponse(true))));
    assert!(!step.leave);
}

#[test]
fn refused_id_is_ignored_afterwards() {
    let mut host = HostingState::new();
    let request = ClientToHostNetworkMessage::JoinRequest(ClientID(7)).encode();
    assert_eq!(
        handle_datagram(&request, peer_address(), &mut host),
        Some(HostingToUIMessage::JoinRequest(ClientID(7)))
    );
    let answer = handle_join_request_response(ClientID(7), false, &mut host);
    assert!(host.is_refused(ClientID(7)));
    assert_eq!(answer.bytes, vec![1, 0]);
    assert_eq!(handle_datagram(&request, peer_address(), &mut host), None);
    assert!(host.is_refused(ClientID(7)));
    assert!(!host.is_pending(ClientID(7)));
    assert!(!host.is_accepted(ClientID(7)));
}

#[test]
fn refusal_ends_peer_session() {
    let mut peer = PeerSession::new(ClientID(7));
    let step = feed(&mut peer, &[1, 0]);
    assert!(matches!(step.event, Some(JoinedToUIMessage::JoinRequestResponse(false))));
    assert!(step.leave);
    let step = peer_handle_response(false);
    assert!(step.leave);
}

#[test]
fn large_frame_reaches_peer_whole() {
    let mut host = HostingState::new();
    handle_join_request(ClientID(3), peer_address(), &mut host);
    handle_join_request_response(ClientID(3), true, &mut host);
    let payload: Vec<u8> = (0..200000usize).map(|i| (i % 253) as u8).collect();
    let datagrams = frame_datagrams(NetworkFrame { data: payload.clone() });
    assert_eq!(datagrams.len(), 200001 / MAX_UDP_SEND_SIZE + 1);
    assert_eq!(host.accepted_addresses(), vec![peer_address()]);
    let total: usize = datagrams.iter().map(|d| d.len()).sum();
    assert_eq!(total, 200001);
    let mut peer = PeerSession::new(ClientID(3));
    let mut delivered = None;
    for (i, d) in datagrams.iter().enumerate() {
        let step = feed(&mut peer, d);
        assert!(!step.leave);
        if i + 1 < datagrams.len() {
            assert!(step.event.is_none());
        } else {
            delivered = step.event;
        }
    }
    match delivered {
        Some(JoinedToUIMessage::Frame(f)) => {
            assert_eq!(f.data.len(), 200000);
            assert_eq!(f.data, payload);
        }
        other => panic!("unexpected {:?}", other),
    }
}

#[test]
fn small_frame_is_one_datagram() {
    let datagrams = frame_datagrams(NetworkFrame { data: vec![4, 5, 6] });
    assert_eq!(datagrams, vec![vec![2, 4, 5, 6]]);
    let mut peer = PeerSession::new(ClientID(1));
    let step = feed(&mut peer, &datagrams[0]);
    match step.event {
        Some(JoinedToUIMessage::Frame(f)) => assert_eq!(f.data, vec![4, 5, 6]),
        other => panic!("unexpected {:?}", other),
    }
}

#[test]
fn left_removes_accepted_client() {
    let mut host = HostingState::new();
    handle_join_request(ClientID(9), peer_address(), &mut host);
    handle_join_request_response(ClientID(9), true, &mut host);
    let left = ClientToHostNetworkMessage::Left(ClientID(9));
    assert_eq!(
        handle_network_message(left, peer_address(), &mut host),
        Some(HostingToUIMessage::ClientLeft(ClientID(9)))
    );
    assert!(!host.is_accepted(ClientID(9)));
    assert!(host.accepted_addresses().is_empty());
    assert_eq!(
        handle_client_left(ClientID(10), &mut host),
        HostingToUIMessage::ClientLeft(ClientID(10))
    );
}

#[test]
fn repeated_request_keeps_first_address() {
    let mut host = HostingState::new();
    handle_join_request(ClientID(11), peer_address(), &mut host);
    let other = Address::V6(1, 4000);
    assert_eq!(
        handle_join_request(ClientID(11), other, &mut host),
        Some(HostingToUIMessage::JoinRequest(ClientID(11)))
    );
    let answer = handle_join_request_response(ClientID(11), true, &mut host);
    assert_eq!(answer.address, peer_address());
    assert_eq!(handle_join_request(ClientID(11), other, &mut host), None);
    assert!(host.is_accepted(ClientID(11)));
    assert!(!host.is_pending(ClientID(11)));
}

#[test]
fn undecodable_datagram_changes_nothing() {
    let mut host = HostingState::new();
    assert_eq!(handle_datagram(&[], peer_address(), &mut host), None);
    assert_eq!(handle_datagram(&[9, 1, 1], peer_address(), &mut host), None);
    assert_eq!(handle_datagram(&[1, 1], peer_address(), &mut host), None);
    assert!(!host.is_pending(ClientID(257)));
    let mut peer = PeerSession::new(ClientID(1));
    let step = feed(&mut peer, &[7, 7]);
    assert!(step.event.is_none());
    assert!(!step.leave);
}

#[test]
fn fan_out_lists_every_accepted_client() {
    let mut host = HostingState::new();
    let a = Address::V4(1, 1);
    let b = Address::V4(2, 2);
    let c = Address::V4(3, 3);
    handle_join_request(ClientID(1), a, &mut host);
    handle_join_request(ClientID(2), b, &mut host);
    handle_join_request(ClientID(3), c, &mut host);
    handle_join_request_response(ClientID(1), true, &mut host);
    handle_join_request_response(ClientID(2), false, &mut host);
    handle_join_request_response(ClientID(3), true, &mut host);
    let mut addresses = host.accepted_addresses();
    addresses.sort_by_key(|x| match x {
        Address::V4(ip, _) => *ip,
        Address::V6(..) => u32::MAX,
    });
    assert_eq!(addresses, vec![a, c]);
}

#[test]
fn peer_messages_carry_its_id() {
    let peer = PeerSession::new(ClientID(0x0102));
    assert_eq!(peer.id(), ClientID(0x0102));
    assert_eq!(peer.join_request(), vec![1, 2, 1]);
    assert_eq!(peer.leave_notice(), vec![2, 2, 1]);
}

#[test]
fn frame_handed_to_interface_unchanged() {
    match handle_frame(NetworkFrame { data: vec![1, 2] }) {
        JoinedToUIMessage::Frame(f) => assert_eq!(f.data, vec![1, 2]),
        other => panic!("unexpected {:?}", other),
    }
    let encoded = HostToClientNetworkMessage::Frame(NetworkFrame { data: vec![0; 5] }).encode();
    assert_eq!(split_for_sending(&encoded), vec![encoded.clone()]);
}
