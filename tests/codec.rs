use quickscreen::network::{
    Address, ClientID, ClientToHostNetworkMessage, HostToClientNetworkMessage,
    NetworkConversionError, NetworkFrame,
};

#[test]
fn join_request_encodes_little_endian() {
    let bytes = ClientToHostNetworkMessage::JoinRequest(ClientID(0x1234)).encode();
    assert_eq!(bytes, vec![1, 0x34, 0x12]);
}

#[test]
fn left_encodes_little_endian() {
    let bytes = ClientToHostNetworkMessage::Left(ClientID(513)).encode();
    assert_eq!(bytes, vec![2, 1, 2]);
}

#[test]
fn client_to_host_round_trip() {
    for id in [0u16, 1, 42, 255, 256, 0xABCD, u16::MAX] {
        for m in [
            ClientToHostNetworkMessage::JoinRequest(ClientID(id)),
            ClientToHostNetworkMessage::Left(ClientID(id)),
        ] {
            let bytes = m.encode();
            assert_eq!(ClientToHostNetworkMessage::decode(&bytes), Ok(m));
        }
    }
}

#[test]
fn join_response_encodes() {
    assert_eq!(HostToClientNetworkMessage::JoinRequestResponse(true).encode(), vec![1, 1]);
    assert_eq!(HostToClientNetworkMessage::JoinRequestResponse(false).encode(), vec![1, 0]);
}

#[test]
fn frame_encodes_opcode_then_payload() {
    let m = HostToClientNetworkMessage::Frame(NetworkFrame { data: vec![9, 8, 7] });
    assert_eq!(m.encode(), vec![2, 9, 8, 7]);
}

#[test]
fn host_to_client_round_trip() {
    for accepted in [true, false] {
        let bytes = HostToClientNetworkMessage::JoinRequestResponse(accepted).encode();
        match HostToClientNetworkMessage::decode(&bytes) {
            Ok(HostToClientNetworkMessage::JoinRequestResponse(a)) => assert_eq!(a, accepted),
            other => panic!("unexpected {:?}", other),
        }
    }
    for payload in [vec![], vec![0u8], vec![2, 1, 0, 255, 17]] {
        let bytes = HostToClientNetworkMessage::Frame(NetworkFrame { data: payload.clone() }).encode();
        match HostToClientNetworkMessage::decode(&bytes) {
            Ok(HostToClientNetworkMessage::Frame(f)) => assert_eq!(f.data, payload),
            other => panic!("unexpected {:?}", other),
        }
    }
}

#[test]
fn join_response_non_zero_byte_is_acceptance() {
    match HostToClientNetworkMessage::decode(&[1, 7]) {
        Ok(HostToClientNetworkMessage::JoinRequestResponse(a)) => assert!(a),
        other => panic!("unexpected {:?}", other),
    }
}

#[test]
fn empty_buffer_is_reported() {
    assert_eq!(
        ClientToHostNetworkMessage::decode(&[]),
        Err(NetworkConversionError::EmptyBuffer)
    );
    assert!(matches!(
        HostToClientNetworkMessage::decode(&[]),
        Err(NetworkConversionError::EmptyBuffer)
    ));
}

#[test]
fn unknown_opcode_is_reported() {
    for first in [0u8, 3, 200, 255] {
        assert_eq!(
            ClientToHostNetworkMessage::decode(&[first, 1, 2]),
            Err(NetworkConversionError::UnrecognizedSignature)
        );
        assert!(matches!(
            HostToClientNetworkMessage::decode(&[first, 1]),
            Err(NetworkConversionError::UnrecognizedSignature)
        ));
    }
}

#[test]
fn short_buffer_is_malformed() {
    for b in [vec![1u8], vec![1, 5], vec![2], vec![2, 5]] {
        assert_eq!(
            ClientToHostNetworkMessage::decode(&b),
            Err(NetworkConversionError::MalformedMessage)
        );
    }
    assert!(matches!(
        HostToClientNetworkMessage::decode(&[1]),
        Err(NetworkConversionError::MalformedMessage)
    ));
}

#[test]
fn extra_bytes_after_client_message_are_ignored() {
    assert_eq!(
        ClientToHostNetworkMessage::decode(&[1, 42, 0, 99, 99]),
        Ok(ClientToHostNetworkMessage::JoinRequest(ClientID(42)))
    );
}

#[test]
fn as_client_keeps_id_and_address() {
    let address = Address::V4(0x7f000001, 1234);
    let client = ClientID(5).as_client(address);
    assert_eq!(client.id, ClientID(5));
    assert_eq!(client.address, address);
}

#[test]
fn generated_ids_vary() {
    let ids: Vec<u16> = (0..64).map(|_| ClientID::generate().0).collect();
    assert!(ids.iter().any(|&i| i != ids[0]));
}
