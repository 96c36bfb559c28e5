//! Protocol messages and their wire encoding.
//!
//! Messages from a peer to the host are three bytes: an opcode (1 for a join
//! request, 2 for a leave notice) and the two little-endian halves of the
//! client identifier. Messages from the host to a peer start with an opcode:
//! 1 is a join response followed by one byte (0 for refused, anything else for
//! accepted), 2 is a frame followed by its raw payload.

use vstd::prelude::*;
use vstd::slice::slice_to_vec;

verus! {

/// Opcode of a join request sent by a peer.
pub const JOIN_REQUEST_OPCODE: u8 = 1;

/// Opcode of a leave notice sent by a peer.
pub const LEFT_OPCODE: u8 = 2;

/// Opcode of the host's answer to a join request.
pub const JOIN_RESPONSE_OPCODE: u8 = 1;

/// Opcode of a frame sent by the host.
pub const FRAME_OPCODE: u8 = 2;

/// Length of every message a peer sends to the host.
pub const CLIENT_TO_HOST_MESSAGE_SIZE: usize = 3;

/// Identifier a peer picks for itself before asking to join.
#[derive(Debug, PartialEq, Eq, Structural, Hash, Clone, Copy)]
pub struct ClientID(pub u16);

/// A network endpoint, held as plain numbers: the address's bits and the port.
#[derive(Debug, PartialEq, Eq, Structural, Hash, Clone, Copy)]
pub enum Address {
    V4(u32, u16),
    V6(u128, u16),
}

/// A peer known to the host: its identifier and the endpoint it wrote from.
#[derive(Debug, PartialEq, Eq, Structural, Clone, Copy)]
pub struct Client {
    pub id: ClientID,
    pub address: Address,
}

/// Relies on rand::random: any value of the type may come back.
#[verifier::external_body]
fn random_u16() -> (r: u16) {
    rand::random::<u16>()
}

impl ClientID {
    /// A fresh identifier drawn at random; two peers may draw the same one.
    pub fn generate() -> (r: ClientID) {
        ClientID(random_u16())
    }

    /// The client record for this identifier at `address`.
    pub fn as_client(&self, address: Address) -> (r: Client)
        ensures
            r.id == *self,
            r.address == address,
    {
        Client { id: *self, address }
    }
}

/// An opaque frame payload produced by the capture side.
#[derive(Debug)]
pub struct NetworkFrame {
    pub data: Vec<u8>,
}

/// Why a buffer could not be decoded.
#[derive(Debug, PartialEq, Eq, Structural, Clone, Copy)]
pub enum NetworkConversionError {
    EmptyBuffer,
    UnrecognizedSignature,
    MalformedMessage,
}

/// A message from a peer to the host.
#[derive(Debug, PartialEq, Eq, Structural, Clone, Copy)]
pub enum ClientToHostNetworkMessage {
    JoinRequest(ClientID),
    Left(ClientID),
}

/// The two bytes of an identifier, low half first.
pub open spec fn id_bytes(id: ClientID) -> Seq<u8> {
    seq![(id.0 % 256) as u8, (id.0 / 256) as u8]
}

/// The identifier whose low half is `low` and high half is `high`.
pub open spec fn id_from_bytes(low: u8, high: u8) -> ClientID {
    ClientID((low + 256 * high) as u16)
}

impl ClientToHostNetworkMessage {
    /// The bytes that stand for this message on the wire.
    pub open spec fn wire(self) -> Seq<u8> {
        match self {
            ClientToHostNetworkMessage::JoinRequest(id) => seq![JOIN_REQUEST_OPCODE] + id_bytes(id),
            ClientToHostNetworkMessage::Left(id) => seq![LEFT_OPCODE] + id_bytes(id),
        }
    }

    /// What a buffer decodes to. Bytes after the third are not read.
    pub open spec fn parse(b: Seq<u8>) -> Result<Self, NetworkConversionError> {
        if b.len() == 0 {
            Err(NetworkConversionError::EmptyBuffer)
        } else if b[0] != JOIN_REQUEST_OPCODE && b[0] != LEFT_OPCODE {
            Err(NetworkConversionError::UnrecognizedSignature)
        } else if b.len() < CLIENT_TO_HOST_MESSAGE_SIZE {
            Err(NetworkConversionError::MalformedMessage)
        } else if b[0] == JOIN_REQUEST_OPCODE {
            Ok(ClientToHostNetworkMessage::JoinRequest(id_from_bytes(b[1], b[2])))
        } else {
            Ok(ClientToHostNetworkMessage::Left(id_from_bytes(b[1], b[2])))
        }
    }

    /// Serialises the message.
    pub fn encode(&self) -> (r: Vec<u8>)
        ensures
            r@ == self.wire(),
    {
        let (opcode, id) = match *self {
            ClientToHostNetworkMessage::JoinRequest(id) => (JOIN_REQUEST_OPCODE, id),
            ClientToHostNetworkMessage::Left(id) => (LEFT_OPCODE, id),
        };
        let r = vec![opcode, (id.0 % 256) as u8, (id.0 / 256) as u8];
        assert(r@ == self.wire());
        r
    }

    /// Reads a message from the front of `bytes`.
    pub fn decode(bytes: &[u8]) -> (r: Result<Self, NetworkConversionError>)
        ensures
            r == Self::parse(bytes@),
            bytes@.len() == 0 ==> r == Err::<Self, _>(NetworkConversionError::EmptyBuffer),
    {
        if bytes.len() == 0 {
            return Err(NetworkConversionError::EmptyBuffer);
        }
        let opcode = bytes[0];
        if opcode != JOIN_REQUEST_OPCODE && opcode != LEFT_OPCODE {
            return Err(NetworkConversionError::UnrecognizedSignature);
        }
        if bytes.len() < CLIENT_TO_HOST_MESSAGE_SIZE {
            return Err(NetworkConversionError::MalformedMessage);
        }
        let id = ClientID(bytes[1] as u16 + 256 * (bytes[2] as u16));
        if opcode == JOIN_REQUEST_OPCODE {
            Ok(ClientToHostNetworkMessage::JoinRequest(id))
        } else {
            Ok(ClientToHostNetworkMessage::Left(id))
        }
    }
}

/// What a host-to-peer message stands for: a frame payload as a sequence.
pub enum HostToClientView {
    JoinRequestResponse(bool),
    Frame(Seq<u8>),
}

/// A message from the host to a peer.
#[derive(Debug)]
pub enum HostToClientNetworkMessage {
    JoinRequestResponse(bool),
    Frame(NetworkFrame),
}

impl View for HostToClientNetworkMessage {
    type V = HostToClientView;

    open spec fn view(&self) -> HostToClientView {
        match self {
            HostToClientNetworkMessage::JoinRequestResponse(a) => HostToClientView::JoinRequestResponse(*a),
            HostToClientNetworkMessage::Frame(f) => HostToClientView::Frame(f.data@),
        }
    }
}

impl HostToClientView {
    /// The bytes that stand for this message on the wire.
    pub open spec fn wire(self) -> Seq<u8> {
        match self {
            HostToClientView::JoinRequestResponse(a) => seq![JOIN_RESPONSE_OPCODE, if a { 1u8 } else { 0u8 }],
            HostToClientView::Frame(p) => seq![FRAME_OPCODE] + p,
        }
    }

    /// What a buffer decodes to. A frame takes every byte after the opcode.
    pub open spec fn parse(b: Seq<u8>) -> Result<Self, NetworkConversionError> {
        if b.len() == 0 {
            Err(NetworkConversionError::EmptyBuffer)
        } else if b[0] == JOIN_RESPONSE_OPCODE {
            if b.len() < 2 {
                Err(NetworkConversionError::MalformedMessage)
            } else {
                Ok(HostToClientView::JoinRequestResponse(b[1] != 0))
            }
        } else if b[0] == FRAME_OPCODE {
            Ok(HostToClientView::Frame(b.drop_first()))
        } else {
            Err(NetworkConversionError::UnrecognizedSignature)
        }
    }
}

impl HostToClientNetworkMessage {
    /// Serialises the message; a frame's payload is moved into the result.
    pub fn encode(self) -> (r: Vec<u8>)
        ensures
            r@ == self@.wire(),
    {
        match self {
            HostToClientNetworkMessage::JoinRequestResponse(accepted) => {
                let r = vec![JOIN_RESPONSE_OPCODE, if accepted { 1u8 } else { 0u8 }];
                assert(r@ == self@.wire());
                r
            },
            HostToClientNetworkMessage::Frame(frame) => {
                let mut payload = frame.data;
                let mut r = vec![FRAME_OPCODE];
                r.append(&mut payload);
                r
            },
        }
    }

    /// Reads a message from `bytes`.
    pub fn decode(bytes: &[u8]) -> (r: Result<Self, NetworkConversionError>)
        ensures
            match r {
                Ok(m) => HostToClientView::parse(bytes@) == Ok::<_, NetworkConversionError>(m@),
                Err(e) => HostToClientView::parse(bytes@) == Err::<HostToClientView, _>(e),
            },
    {
        if bytes.len() == 0 {
            return Err(NetworkConversionError::EmptyBuffer);
        }
        let opcode = bytes[0];
        if opcode == JOIN_RESPONSE_OPCODE {
            if bytes.len() < 2 {
                Err(NetworkConversionError::MalformedMessage)
            } else {
                Ok(HostToClientNetworkMessage::JoinRequestResponse(bytes[1] != 0))
            }
        } else if opcode == FRAME_OPCODE {
            let (_, rest) = bytes.split_at(1);
            let data = slice_to_vec(rest);
            assert(data@ == bytes@.drop_first());
            Ok(HostToClientNetworkMessage::Frame(NetworkFrame { data }))
        } else {
            Err(NetworkConversionError::UnrecognizedSignature)
        }
    }
}

/// Decoding what a peer's message encodes to gives the message back.
pub proof fn lemma_client_to_host_round_trip(m: ClientToHostNetworkMessage)
    ensures
        ClientToHostNetworkMessage::parse(m.wire()) == Ok::<_, NetworkConversionError>(m),
{
    let id = match m {
        ClientToHostNetworkMessage::JoinRequest(id) => id,
        ClientToHostNetworkMessage::Left(id) => id,
    };
    let b = m.wire();
    assert(b[1] == (id.0 % 256) as u8 && b[2] == (id.0 / 256) as u8);
    assert(id_from_bytes(b[1], b[2]) == id);
}

/// Decoding what a host's message encodes to gives the message back.
pub proof fn lemma_host_to_client_round_trip(m: HostToClientView)
    ensures
        HostToClientView::parse(m.wire()) == Ok::<_, NetworkConversionError>(m),
{
    if let HostToClientView::Frame(p) = m {
        assert(m.wire().drop_first() =~= p);
    }
}

/// A buffer that holds an opcode but not the fields that it requires decodes
/// to `MalformedMessage`, in either direction.
pub proof fn lemma_short_buffer_is_malformed(b: Seq<u8>)
    ensures
        1 <= b.len() < CLIENT_TO_HOST_MESSAGE_SIZE && (b[0] == JOIN_REQUEST_OPCODE || b[0] == LEFT_OPCODE)
            ==> ClientToHostNetworkMessage::parse(b) == Err::<ClientToHostNetworkMessage, _>(NetworkConversionError::MalformedMessage),
        b.len() == 1 && b[0] == JOIN_RESPONSE_OPCODE
            ==> HostToClientView::parse(b) == Err::<HostToClientView, _>(NetworkConversionError::MalformedMessage),
{
}

/// An empty buffer decodes to `EmptyBuffer`, in either direction.
pub proof fn lemma_empty_buffer(b: Seq<u8>)
    requires
        b.len() == 0,
    ensures
        ClientToHostNetworkMessage::parse(b) == Err::<ClientToHostNetworkMessage, _>(NetworkConversionError::EmptyBuffer),
        HostToClientView::parse(b) == Err::<HostToClientView, _>(NetworkConversionError::EmptyBuffer),
{
}

/// A buffer whose first byte is no opcode decodes to `UnrecognizedSignature`,
/// in either direction.
pub proof fn lemma_unknown_opcode(b: Seq<u8>)
    requires
        b.len() >= 1,
        b[0] != 1 && b[0] != 2,
    ensures
        ClientToHostNetworkMessage::parse(b) == Err::<ClientToHostNetworkMessage, _>(NetworkConversionError::UnrecognizedSignature),
        HostToClientView::parse(b) == Err::<HostToClientView, _>(NetworkConversionError::UnrecognizedSignature),
{
}

} // verus!
