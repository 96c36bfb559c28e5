//! The peer's side of a session: what it sends, and what it makes of each
//! datagram that the host sends back.

use vstd::prelude::*;
use crate::fragment::{MAX_UDP_SEND_SIZE, Reassembly};
use crate::network::{
    ClientID, ClientToHostNetworkMessage, FRAME_OPCODE, HostToClientNetworkMessage,
    HostToClientView, NetworkConversionError, NetworkFrame,
};

verus! {

/// What the joined session tells the user interface.
#[derive(Debug)]
pub enum JoinedToUIMessage {
    JoinRequestResponse(bool),
    Frame(NetworkFrame),
}

/// What the user interface tells the joined session.
#[derive(Debug, PartialEq, Eq, Structural, Clone, Copy)]
pub enum UIToJoinedMessage {
    Leave,
}

impl View for JoinedToUIMessage {
    type V = HostToClientView;

    open spec fn view(&self) -> HostToClientView {
        match self {
            JoinedToUIMessage::JoinRequestResponse(a) => HostToClientView::JoinRequestResponse(*a),
            JoinedToUIMessage::Frame(f) => HostToClientView::Frame(f.data@),
        }
    }
}

/// What the session does after a datagram: the event for the user
/// interface, if any, and whether the session ends.
#[derive(Debug)]
pub struct PeerStep {
    pub event: Option<JoinedToUIMessage>,
    pub leave: bool,
}

impl View for PeerStep {
    type V = (Option<HostToClientView>, bool);

    open spec fn view(&self) -> (Option<HostToClientView>, bool) {
        (
            match self.event {
                Some(e) => Some(e@),
                None => None,
            },
            self.leave,
        )
    }
}

/// What a decoded message leads to: a join response is shown and, when it is
/// a refusal, ends the session; a frame is shown; a buffer that does not
/// decode is dropped.
pub open spec fn outcome(m: Result<HostToClientView, NetworkConversionError>) -> (
    Option<HostToClientView>,
    bool,
) {
    match m {
        Ok(HostToClientView::JoinRequestResponse(a)) => (
            Some(HostToClientView::JoinRequestResponse(a)),
            !a,
        ),
        Ok(v) => (Some(v), false),
        Err(_) => (None, false),
    }
}

/// A frame from the host, handed to the user interface.
pub fn handle_frame(frame: NetworkFrame) -> (r: JoinedToUIMessage)
    ensures
        r@ == HostToClientView::Frame(frame.data@),
{
    JoinedToUIMessage::Frame(frame)
}

/// The host's answer to the join request.
pub fn handle_join_request_response(accepted: bool) -> (r: PeerStep)
    ensures
        r@ == outcome(Ok(HostToClientView::JoinRequestResponse(accepted))),
{
    PeerStep { event: Some(JoinedToUIMessage::JoinRequestResponse(accepted)), leave: !accepted }
}

/// A decoded message from the host.
pub fn handle_network_message(message: HostToClientNetworkMessage) -> (r: PeerStep)
    ensures
        r@ == outcome(Ok(message@)),
{
    match message {
        HostToClientNetworkMessage::JoinRequestResponse(accepted) => handle_join_request_response(
            accepted,
        ),
        HostToClientNetworkMessage::Frame(frame) => PeerStep {
            event: Some(handle_frame(frame)),
            leave: false,
        },
    }
}

/// Decodes a whole message and handles it.
fn handle_bytes(bytes: &[u8]) -> (r: PeerStep)
    ensures
        r@ == outcome(HostToClientView::parse(bytes@)),
{
    match HostToClientNetworkMessage::decode(bytes) {
        Ok(message) => handle_network_message(message),
        Err(_) => PeerStep { event: None, leave: false },
    }
}

/// The state of a peer's session: its identifier, and the bytes of a frame
/// whose last datagram has not come yet.
pub struct PeerView {
    pub id: ClientID,
    pub partial: Option<Seq<u8>>,
}

impl PeerView {
    /// The state after a datagram whose bytes are `taken`, and what it leads
    /// to. A datagram that starts with the frame opcode, or that follows one
    /// that was full, is part of a frame, which ends at the first datagram
    /// shorter than the limit; any other datagram is a message of its own.
    pub open spec fn receive(self, taken: Seq<u8>) -> (PeerView, (Option<HostToClientView>, bool)) {
        let in_frame = self.partial is Some || (taken.len() > 0 && taken[0] == FRAME_OPCODE);
        if in_frame {
            let collected = match self.partial {
                Some(p) => p + taken,
                None => taken,
            };
            if taken.len() < MAX_UDP_SEND_SIZE {
                (
                    PeerView { partial: None, ..self },
                    outcome(HostToClientView::parse(collected)),
                )
            } else {
                (PeerView { partial: Some(collected), ..self }, (None, false))
            }
        } else {
            (self, outcome(HostToClientView::parse(taken)))
        }
    }
}

/// A peer's session with one host.
pub struct PeerSession {
    id: ClientID,
    frame: Option<Reassembly>,
}

impl View for PeerSession {
    type V = PeerView;

    closed spec fn view(&self) -> PeerView {
        PeerView {
            id: self.id,
            partial: match self.frame {
                Some(f) => Some(f.collected()),
                None => None,
            },
        }
    }
}

impl PeerSession {
    /// The session's invariant: a frame being put together still waits for
    /// its last datagram.
    pub closed spec fn wf(&self) -> bool {
        match self.frame {
            Some(f) => !f.is_complete(),
            None => true,
        }
    }

    /// A session for the identifier `id`, with nothing received yet.
    pub fn new(id: ClientID) -> (r: PeerSession)
        ensures
            r.wf(),
            r@ == (PeerView { id, partial: None }),
    {
        PeerSession { id, frame: None }
    }

    /// The session's identifier.
    pub fn id(&self) -> (r: ClientID)
        ensures
            r == self@.id,
    {
        self.id
    }

    /// The join request to send to the host.
    pub fn join_request(&self) -> (r: Vec<u8>)
        ensures
            r@ == ClientToHostNetworkMessage::JoinRequest(self@.id).wire(),
    {
        ClientToHostNetworkMessage::JoinRequest(self.id).encode()
    }

    /// The leave notice to send to the host as the session ends.
    pub fn leave_notice(&self) -> (r: Vec<u8>)
        ensures
            r@ == ClientToHostNetworkMessage::Left(self@.id).wire(),
    {
        ClientToHostNetworkMessage::Left(self.id).encode()
    }

    /// Takes one datagram, of which `received` bytes at the front of `buffer`
    /// arrived.
    pub fn receive_datagram(&mut self, buffer: &[u8], received: usize) -> (r: PeerStep)
        requires
            old(self).wf(),
            received <= buffer.len(),
        ensures
            final(self).wf(),
            (final(self)@, r@) == old(self)@.receive(buffer@.subrange(0, received as int)),
    {
        let ghost taken = buffer@.subrange(0, received as int);
        let starts_frame = received > 0 && buffer[0] == FRAME_OPCODE;
        match self.frame.take() {
            Some(mut frame) => {
                let done = frame.push_datagram(buffer, received);
                if done {
                    let bytes = frame.into_bytes();
                    handle_bytes(bytes.as_slice())
                } else {
                    self.frame = Some(frame);
                    PeerStep { event: None, leave: false }
                }
            },
            None => {
                if starts_frame {
                    let mut frame = Reassembly::new();
                    let done = frame.push_datagram(buffer, received);
                    proof {
                        assert(frame.collected() =~= taken);
                    }
                    if done {
                        let bytes = frame.into_bytes();
                        handle_bytes(bytes.as_slice())
                    } else {
                        self.frame = Some(frame);
                        PeerStep { event: None, leave: false }
                    }
                } else {
                    let single = vstd::slice::slice_subrange(buffer, 0, received);
                    handle_bytes(single)
                }
            },
        }
    }
}

} // verus!
