//! The host's side of a session: the registry of clients that asked to join,
//! and what the host does with each message and decision.

use std::collections::HashMap;
use vstd::prelude::*;
use vstd::std_specs::iter::IteratorSpec;
use crate::fragment::{fragments, split_for_sending};
use crate::network::{
    Address, ClientID, ClientToHostNetworkMessage, HostToClientNetworkMessage, HostToClientView,
    NetworkFrame,
};

verus! {

broadcast use vstd::std_specs::hash::group_hash_axioms;

/// What the hosting session tells the user interface.
#[derive(Debug, PartialEq, Eq, Structural, Clone, Copy)]
pub enum HostingToUIMessage {
    JoinRequest(ClientID),
    ClientLeft(ClientID),
}

/// What the user interface tells the hosting session.
#[derive(Debug, PartialEq, Eq, Structural, Clone, Copy)]
pub enum UIToHostingMessage {
    Stop,
    JoinRequestResponse(ClientID, bool),
}

/// One datagram to send, and where to.
#[derive(Debug)]
pub struct Datagram {
    pub address: Address,
    pub bytes: Vec<u8>,
}

/// The three sets of clients, each a map from identifier to endpoint.
pub struct RegistryView {
    pub pending: Map<u16, Address>,
    pub accepted: Map<u16, Address>,
    pub refused: Map<u16, Address>,
}

impl RegistryView {
    /// No client at all.
    pub open spec fn empty() -> RegistryView {
        RegistryView { pending: Map::empty(), accepted: Map::empty(), refused: Map::empty() }
    }

    /// No identifier is in more than one of the three sets.
    pub open spec fn disjoint(self) -> bool {
        forall|id: u16|
            #![trigger self.pending.contains_key(id)]
            #![trigger self.accepted.contains_key(id)]
            #![trigger self.refused.contains_key(id)]
            {
                &&& !(self.pending.contains_key(id) && self.accepted.contains_key(id))
                &&& !(self.pending.contains_key(id) && self.refused.contains_key(id))
                &&& !(self.accepted.contains_key(id) && self.refused.contains_key(id))
            }
    }

    /// Whether the identifier is in any of the three sets.
    pub open spec fn knows(self, id: u16) -> bool {
        self.pending.contains_key(id) || self.accepted.contains_key(id) || self.refused.contains_key(id)
    }

    /// A join request: an unknown identifier becomes pending at `address`;
    /// a known one stays where it is, at the endpoint it first wrote from.
    pub open spec fn register(self, id: u16, address: Address) -> RegistryView {
        if self.knows(id) {
            self
        } else {
            RegistryView { pending: self.pending.insert(id, address), ..self }
        }
    }

    /// The decision on a pending identifier moves it to the accepted or the
    /// refused set. Nothing changes for an identifier that is not pending.
    pub open spec fn resolve(self, id: u16, accepted: bool) -> RegistryView {
        if !self.pending.contains_key(id) {
            self
        } else if accepted {
            RegistryView {
                pending: self.pending.remove(id),
                accepted: self.accepted.insert(id, self.pending[id]),
                ..self
            }
        } else {
            RegistryView {
                pending: self.pending.remove(id),
                refused: self.refused.insert(id, self.pending[id]),
                ..self
            }
        }
    }

    /// A leave notice erases the identifier from the accepted set.
    pub open spec fn remove(self, id: u16) -> RegistryView {
        RegistryView { accepted: self.accepted.remove(id), ..self }
    }

    /// The registry after a message from `origin`.
    pub open spec fn on_message(self, m: ClientToHostNetworkMessage, origin: Address) -> RegistryView {
        match m {
            ClientToHostNetworkMessage::JoinRequest(id) => self.register(id.0, origin),
            ClientToHostNetworkMessage::Left(id) => self.remove(id.0),
        }
    }

    /// What the user interface is told of a message: a join request unless
    /// the identifier was refused or accepted already, and every leave notice.
    pub open spec fn event_for(self, m: ClientToHostNetworkMessage) -> Option<HostingToUIMessage> {
        match m {
            ClientToHostNetworkMessage::JoinRequest(id) => if self.refused.contains_key(id.0)
                || self.accepted.contains_key(id.0) {
                None
            } else {
                Some(HostingToUIMessage::JoinRequest(id))
            },
            ClientToHostNetworkMessage::Left(id) => Some(HostingToUIMessage::ClientLeft(id)),
        }
    }
}

/// Each operation of the registry keeps the three sets disjoint.
pub proof fn lemma_operations_keep_disjoint(s: RegistryView, id: u16, address: Address, accepted: bool)
    requires
        s.disjoint(),
    ensures
        s.register(id, address).disjoint(),
        s.resolve(id, accepted).disjoint(),
        s.remove(id).disjoint(),
{
    assert(s.register(id, address).disjoint());
    assert(s.resolve(id, accepted).disjoint());
    assert(s.remove(id).disjoint());
}

/// One call on the registry.
pub enum RegistryOp {
    Register(u16, Address),
    Resolve(u16, bool),
    Remove(u16),
}

impl RegistryView {
    /// The registry after one call.
    pub open spec fn apply(self, op: RegistryOp) -> RegistryView {
        match op {
            RegistryOp::Register(id, address) => self.register(id, address),
            RegistryOp::Resolve(id, accepted) => self.resolve(id, accepted),
            RegistryOp::Remove(id) => self.remove(id),
        }
    }

    /// The registry after the calls `ops`, in order.
    pub open spec fn run(self, ops: Seq<RegistryOp>) -> RegistryView
        decreases ops.len(),
    {
        if ops.len() == 0 {
            self
        } else {
            self.apply(ops[0]).run(ops.drop_first())
        }
    }
}

proof fn lemma_run_keeps_disjoint(s: RegistryView, ops: Seq<RegistryOp>)
    requires
        s.disjoint(),
    ensures
        s.run(ops).disjoint(),
    decreases ops.len(),
{
    if ops.len() > 0 {
        let (id, address, accepted) = match ops[0] {
            RegistryOp::Register(id, address) => (id, address, true),
            RegistryOp::Resolve(id, accepted) => (id, Address::V4(0, 0), accepted),
            RegistryOp::Remove(id) => (id, Address::V4(0, 0), true),
        };
        lemma_operations_keep_disjoint(s, id, address, accepted);
        lemma_run_keeps_disjoint(s.apply(ops[0]), ops.drop_first());
    }
}

/// Whatever calls are made on a registry that starts empty, or with disjoint
/// sets, no identifier is ever in more than one of the three sets.
pub proof fn lemma_registry_stays_disjoint(s: RegistryView, ops: Seq<RegistryOp>)
    requires
        s.disjoint(),
    ensures
        s.run(ops).disjoint(),
        RegistryView::empty().run(ops).disjoint(),
{
    lemma_run_keeps_disjoint(s, ops);
    assert(RegistryView::empty().disjoint());
    lemma_run_keeps_disjoint(RegistryView::empty(), ops);
}

/// The clients of one hosting session.
pub struct HostingState {
    pending_clients: HashMap<u16, Address>,
    accepted_clients: HashMap<u16, Address>,
    refused_clients: HashMap<u16, Address>,
}

impl View for HostingState {
    type V = RegistryView;

    closed spec fn view(&self) -> RegistryView {
        RegistryView {
            pending: self.pending_clients@,
            accepted: self.accepted_clients@,
            refused: self.refused_clients@,
        }
    }
}

impl HostingState {
    /// The registry's invariant: the three sets are disjoint.
    pub open spec fn wf(&self) -> bool {
        self@.disjoint()
    }

    /// An empty registry, as a session starts with.
    pub fn new() -> (r: HostingState)
        ensures
            r@ == RegistryView::empty(),
            r.wf(),
    {
        let r = HostingState {
            pending_clients: HashMap::new(),
            accepted_clients: HashMap::new(),
            refused_clients: HashMap::new(),
        };
        assert(r@.pending =~= Map::empty());
        assert(r@.accepted =~= Map::empty());
        assert(r@.refused =~= Map::empty());
        r
    }

    /// Whether `id` waits for a decision.
    pub fn is_pending(&self, id: ClientID) -> (r: bool)
        ensures
            r == self@.pending.contains_key(id.0),
    {
        self.pending_clients.contains_key(&id.0)
    }

    /// Whether `id` was accepted and has not left.
    pub fn is_accepted(&self, id: ClientID) -> (r: bool)
        ensures
            r == self@.accepted.contains_key(id.0),
    {
        self.accepted_clients.contains_key(&id.0)
    }

    /// The endpoints of the accepted clients, one for each, in no set order:
    /// a frame goes to each of them.
    pub fn accepted_addresses(&self) -> (r: Vec<Address>)
        ensures
            r@.len() == self@.accepted.dom().len(),
            forall|i: int| 0 <= i < r@.len() ==> self@.accepted.contains_value(#[trigger] r@[i]),
            forall|id: u16|
                #[trigger] self@.accepted.contains_key(id) ==> r@.contains(self@.accepted[id]),
    {
        let mut r: Vec<Address> = Vec::new();
        let m = &self.accepted_clients;
        for entry in it: m.iter()
            invariant
                r@.len() == it.index(),
                it.seq() == vstd::std_specs::hash::spec_hash_map_iter(m).remaining(),
                forall|i: int| 0 <= i < it.index() ==> #[trigger] r@[i] == *it.seq()[i].1,
                forall|id: u16|
                    #[trigger] m@.contains_key(id) ==> it.seq().contains((&id, &m@[id])),
        {
            let (_, address) = entry;
            r.push(*address);
        }
        proof {
            let v = vstd::std_specs::hash::spec_hash_map_iter(m).remaining();
            assert(self@.accepted == m@);
            assert forall|i: int| 0 <= i < r@.len() implies self@.accepted.contains_value(
                #[trigger] r@[i],
            ) by {
                assert(m@.contains_key(*v[i].0) && m@[*v[i].0] == *v[i].1);
            }
            assert forall|id: u16| #[trigger] m@.contains_key(id) implies r@.contains(m@[id]) by {
                let v = vstd::std_specs::hash::spec_hash_map_iter(m).remaining();
                let j = choose|j: int| 0 <= j < v.len() && v[j] == (&id, &m@[id]);
                assert(r@[j] == m@[id]);
            }
        }
        r
    }

    /// Whether `id` was refused.
    pub fn is_refused(&self, id: ClientID) -> (r: bool)
        ensures
            r == self@.refused.contains_key(id.0),
    {
        self.refused_clients.contains_key(&id.0)
    }
}

/// A join request from `client_address`. Returns what the user interface is
/// to be told.
pub fn handle_join_request(
    client_id: ClientID,
    client_address: Address,
    state: &mut HostingState,
) -> (r: Option<HostingToUIMessage>)
    requires
        old(state).wf(),
    ensures
        final(state).wf(),
        final(state)@ == old(state)@.register(client_id.0, client_address),
        r == old(state)@.event_for(ClientToHostNetworkMessage::JoinRequest(client_id)),
{
    if state.refused_clients.contains_key(&client_id.0) || state.accepted_clients.contains_key(
        &client_id.0,
    ) {
        proof {
            assert(state@ =~= old(state)@.register(client_id.0, client_address));
        }
        return None;
    }
    if !state.pending_clients.contains_key(&client_id.0) {
        state.pending_clients.insert(client_id.0, client_address);
    }
    proof {
        assert(state@ =~= old(state)@.register(client_id.0, client_address));
        lemma_operations_keep_disjoint(old(state)@, client_id.0, client_address, true);
    }
    Some(HostingToUIMessage::JoinRequest(client_id))
}

/// The user's decision on a pending client. Returns the answer to send it.
pub fn handle_join_request_response(client_id: ClientID, accepted: bool, state: &mut HostingState) -> (r:
    Datagram)
    requires
        old(state).wf(),
        old(state)@.pending.contains_key(client_id.0),
    ensures
        final(state).wf(),
        final(state)@ == old(state)@.resolve(client_id.0, accepted),
        r.address == old(state)@.pending[client_id.0],
        r.bytes@ == HostToClientView::JoinRequestResponse(accepted).wire(),
{
    let address = *state.pending_clients.get(&client_id.0).unwrap();
    state.pending_clients.remove(&client_id.0);
    if accepted {
        state.accepted_clients.insert(client_id.0, address);
    } else {
        state.refused_clients.insert(client_id.0, address);
    }
    proof {
        assert(state@ =~= old(state)@.resolve(client_id.0, accepted));
        lemma_operations_keep_disjoint(old(state)@, client_id.0, address, accepted);
    }
    let bytes = HostToClientNetworkMessage::JoinRequestResponse(accepted).encode();
    Datagram { address, bytes }
}

/// A leave notice. Returns what the user interface is to be told.
pub fn handle_client_left(client_id: ClientID, state: &mut HostingState) -> (r: HostingToUIMessage)
    requires
        old(state).wf(),
    ensures
        final(state).wf(),
        final(state)@ == old(state)@.remove(client_id.0),
        r == HostingToUIMessage::ClientLeft(client_id),
{
    state.accepted_clients.remove(&client_id.0);
    proof {
        assert(state@ =~= old(state)@.remove(client_id.0));
        lemma_operations_keep_disjoint(old(state)@, client_id.0, Address::V4(0, 0), true);
    }
    HostingToUIMessage::ClientLeft(client_id)
}

/// A decoded message from `origin`. Returns what the user interface is to be
/// told.
pub fn handle_network_message(
    message: ClientToHostNetworkMessage,
    origin: Address,
    state: &mut HostingState,
) -> (r: Option<HostingToUIMessage>)
    requires
        old(state).wf(),
    ensures
        final(state).wf(),
        final(state)@ == old(state)@.on_message(message, origin),
        r == old(state)@.event_for(message),
{
    match message {
        ClientToHostNetworkMessage::JoinRequest(client_id) => handle_join_request(
            client_id,
            origin,
            state,
        ),
        ClientToHostNetworkMessage::Left(client_id) => Some(handle_client_left(client_id, state)),
    }
}

/// A datagram from `origin`: decoded, then handled. One that does not decode
/// is dropped and changes nothing.
pub fn handle_datagram(bytes: &[u8], origin: Address, state: &mut HostingState) -> (r: Option<
    HostingToUIMessage,
>)
    requires
        old(state).wf(),
    ensures
        final(state).wf(),
        match ClientToHostNetworkMessage::parse(bytes@) {
            Ok(m) => final(state)@ == old(state)@.on_message(m, origin) && r == old(state)@.event_for(m),
            Err(_) => final(state)@ == old(state)@ && r.is_none(),
        },
{
    match ClientToHostNetworkMessage::decode(bytes) {
        Ok(message) => handle_network_message(message, origin, state),
        Err(_) => None,
    }
}

/// The datagrams that carry a frame to each accepted client.
pub fn frame_datagrams(frame: NetworkFrame) -> (r: Vec<Vec<u8>>)
    ensures
        r@.len() == fragments(HostToClientView::Frame(frame.data@).wire()).len(),
        forall|i: int|
            0 <= i < r@.len() ==> #[trigger] r@[i]@ == fragments(
                HostToClientView::Frame(frame.data@).wire(),
            )[i],
{
    let bytes = HostToClientNetworkMessage::Frame(frame).encode();
    split_for_sending(bytes.as_slice())
}

} // verus!
