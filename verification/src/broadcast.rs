//! Broadcast by batched gossip: every value a node has seen is passed on to
//! its neighbours in batches, until all nodes have seen it.

use crate::error::{NodeError, NodeErrorView};
use crate::json::Json;
use crate::message::{Body, Message};
use crate::node::{settle, waiting, Delivery, Node};
use crate::text::clone_names;
use tinyset::SetU32;
use vstd::prelude::*;

verus! {

/// `tinyset::SetU32`, a compact set of `u32`. Nothing of its inside is
/// known here; what it holds is told by [`set_elements`].
#[verifier::external_type_specification]
#[verifier::external_body]
pub struct ExSetU32(SetU32);

/// The numbers that a set holds.
pub uninterp spec fn set_elements(set: SetU32) -> Set<u32>;

/// `SetU32::new`: a set that holds nothing.
#[verifier::external_body]
fn set_new() -> (set: SetU32)
    ensures
        set_elements(set) == (Set::<u32>::empty()),
{
    SetU32::new()
}

/// `SetU32::insert`: afterwards the set holds `e` besides what it held, and
/// the result says whether `e` is new to it.
#[verifier::external_body]
fn set_insert(set: &mut SetU32, e: u32) -> (fresh: bool)
    ensures
        set_elements(*final(set)) == set_elements(*old(set)).insert(e),
        fresh == !set_elements(*old(set)).contains(e),
{
    set.insert(e)
}

/// `SetU32::contains`: whether the set holds `e`.
#[verifier::external_body]
fn set_contains(set: &SetU32, e: u32) -> (held: bool)
    ensures
        held == set_elements(*set).contains(e),
{
    set.contains(e)
}

/// `SetU32::is_empty`: whether the set holds nothing.
#[verifier::external_body]
fn set_is_empty(set: &SetU32) -> (empty: bool)
    ensures
        empty == (set_elements(*set) == Set::<u32>::empty()),
{
    set.is_empty()
}

/// `&SetU32 | &SetU32`: a new set that holds what either set holds.
#[verifier::external_body]
fn set_union(a: &SetU32, b: &SetU32) -> (both: SetU32)
    ensures
        set_elements(both) == set_elements(*a).union(set_elements(*b)),
{
    a | b
}

/// `SetU32::clone`: a new set that holds the same numbers.
pub assume_specification[ <SetU32 as Clone>::clone ](set: &SetU32) -> (copy: SetU32)
    ensures
        set_elements(copy) == set_elements(*set),
;

/// `SetU32::iter`: the numbers of the set, each once, in no stated order.
#[verifier::external_body]
fn set_to_vec(set: &SetU32) -> (items: Vec<u32>)
    ensures
        items@.no_duplicates(),
        items@.to_set() == set_elements(*set),
{
    set.iter().collect()
}

/// What a node of the broadcast workload receives.
#[derive(Debug, Clone, PartialEq, Eq)]
pub enum Request {
    Broadcast { message: u32 },
    BroadcastOk,
    BroadcastBatch { messages: SetU32 },
    BroadcastBatchOk,
    Read,
    /// For each node, listed once, the names of its neighbours.
    Topology { topology: Vec<(String, Vec<String>)> },
}

/// What a node of the broadcast workload answers to a client.
#[derive(Debug, Clone, PartialEq, Eq)]
pub enum Response {
    ReadOk { messages: SetU32 },
    TopologyOk,
}

/// The state of the workload on one node.
pub struct Broadcast {
    /// The neighbours that batches go to.
    pub peers: Vec<String>,
    /// Every value seen so far.
    pub messages: SetU32,
    /// The values to pass on with the next batch.
    pub buffer: SetU32,
}

/// One round of gossip: a batch on its way to the neighbours, one after the
/// other.
pub struct BatchRound {
    /// The values of the batch.
    pub pending: SetU32,
    /// The neighbours, as they were when the round began.
    pub peers: Vec<String>,
    /// How many neighbours have been served.
    pub next: usize,
}

/// What handling a message led to.
#[derive(Debug, PartialEq, Eq)]
pub enum Handled {
    /// An acknowledgement to send back.
    Reply(Message<Request>),
    /// An answer to send back to a client.
    Answer(Message<Response>),
    /// The message was itself an acknowledgement; if a caller waited for
    /// it, this is its delivery.
    Routed(Option<Delivery>),
}

/// The neighbours that a topology lists for the node `id`: those of the
/// first entry under that name.
pub open spec fn neighbours(topology: Seq<(String, Vec<String>)>, id: Seq<char>) -> Option<
    Seq<Seq<char>>,
>
    decreases topology.len(),
{
    if topology.len() == 0 {
        None
    } else if topology[0].0@ == id {
        Some(topology[0].1.deep_view())
    } else {
        neighbours(topology.drop_first(), id)
    }
}

/// The values to pass on after a client broadcast `message`: a value seen
/// before is not passed on again.
pub open spec fn buffer_after_broadcast(seen: Set<u32>, buffer: Set<u32>, message: u32) -> Set<
    u32,
> {
    if seen.contains(message) {
        buffer
    } else {
        buffer.insert(message)
    }
}

/// The place of the first entry of `topology` under the name `id`.
fn find_entry(topology: &Vec<(String, Vec<String>)>, id: &String) -> (found: Option<usize>)
    ensures
        match found {
            Some(i) => i < topology.len() && neighbours(topology@, id@) == Some(
                topology[i as int].1.deep_view(),
            ),
            None => neighbours(topology@, id@) is None,
        },
{
    let mut i: usize = 0;
    assert(topology@.skip(0) =~= topology@);
    while i < topology.len()
        invariant
            i <= topology.len(),
            neighbours(topology@, id@) == neighbours(topology@.skip(i as int), id@),
        decreases topology.len() - i,
    {
        if topology[i].0 == *id {
            return Some(i);
        }
        assert(topology@.skip(i as int).drop_first() =~= topology@.skip(i + 1));
        i += 1;
    }
    None
}

impl Broadcast {
    /// The values seen so far.
    pub open spec fn seen(&self) -> Set<u32> {
        set_elements(self.messages)
    }

    /// The values that the next batch will carry.
    pub open spec fn queued(&self) -> Set<u32> {
        set_elements(self.buffer)
    }

    /// A node that has seen nothing and knows no neighbour.
    pub fn new() -> (state: Broadcast)
        ensures
            state.peers@.len() == 0,
            state.seen() == Set::<u32>::empty(),
            state.queued() == Set::<u32>::empty(),
    {
        Broadcast { peers: Vec::new(), messages: set_new(), buffer: set_new() }
    }

    /// The values seen so far, each once, in no stated order.
    pub fn seen_values(&self) -> (items: Vec<u32>)
        ensures
            items@.no_duplicates(),
            items@.to_set() == self.seen(),
    {
        set_to_vec(&self.messages)
    }

    /// The values that the next batch will carry, each once, in no stated
    /// order.
    pub fn queued_values(&self) -> (items: Vec<u32>)
        ensures
            items@.no_duplicates(),
            items@.to_set() == self.queued(),
    {
        set_to_vec(&self.buffer)
    }

    /// Takes the neighbours that `topology` lists for this node; where it
    /// lists none, the neighbours stay as they are. Answers `topology_ok`.
    pub fn handle_topology<T>(
        &mut self,
        topology: &Vec<(String, Vec<String>)>,
        node: &mut Node,
        msg: &Message<T>,
    ) -> (out: Message<Response>)
        ensures
            final(self).peers.deep_view() == (match neighbours(topology@, old(node).id@) {
                Some(names) => names,
                None => old(self).peers.deep_view(),
            }),
            final(self).seen() == old(self).seen(),
            final(self).queued() == old(self).queued(),
            final(node).sent_reply(*old(node), out@, msg@),
            out@.payload == Response::TopologyOk,
    {
        match find_entry(topology, &node.id) {
            Some(i) => {
                self.peers = clone_names(&topology[i].1);
            },
            None => {},
        }
        node.reply(msg, Response::TopologyOk)
    }

    /// Takes a value from a client. A value that is new to this node is
    /// kept and queued for the next batch. Answers `broadcast_ok`.
    pub fn handle_broadcast<T>(&mut self, message: u32, node: &mut Node, msg: &Message<T>) -> (out:
        Message<Request>)
        ensures
            final(self).seen() == old(self).seen().insert(message),
            final(self).queued() == buffer_after_broadcast(
                old(self).seen(),
                old(self).queued(),
                message,
            ),
            final(self).peers == old(self).peers,
            final(node).sent_reply(*old(node), out@, msg@),
            out@.payload == Request::BroadcastOk,
    {
        if !set_contains(&self.messages, message) {
            set_insert(&mut self.messages, message);
            set_insert(&mut self.buffer, message);
        } else {
            assert(self.seen().insert(message) =~= self.seen());
        }
        node.reply(msg, Request::BroadcastOk)
    }

    /// Takes a batch from a neighbour: its values are kept, and queued so
    /// that they travel on. Answers `broadcast_batch_ok`.
    pub fn handle_broadcast_batch<T>(&mut self, batch: &SetU32, node: &mut Node, msg: &Message<T>) -> (out:
        Message<Request>)
        ensures
            final(self).seen() == old(self).seen().union(set_elements(*batch)),
            final(self).queued() == old(self).queued().union(set_elements(*batch)),
            final(self).peers == old(self).peers,
            final(node).sent_reply(*old(node), out@, msg@),
            out@.payload == Request::BroadcastBatchOk,
    {
        let seen = set_union(batch, &self.messages);
        let queued = set_union(batch, &self.buffer);
        assert(set_elements(seen) =~= self.seen().union(set_elements(*batch)));
        assert(set_elements(queued) =~= self.queued().union(set_elements(*batch)));
        self.messages = seen;
        self.buffer = queued;
        node.reply(msg, Request::BroadcastBatchOk)
    }

    /// Answers a client's `read` with the values seen so far.
    pub fn handle_read<T>(&self, node: &mut Node, msg: &Message<T>) -> (out: Message<Response>)
        ensures
            final(node).sent_reply(*old(node), out@, msg@),
            out@.payload matches Response::ReadOk { messages } && set_elements(messages)
                == self.seen(),
    {
        let messages = self.messages.clone();
        node.reply(msg, Response::ReadOk { messages })
    }

    /// Begins a round of gossip when the batch timer fires: the queue is
    /// emptied, and what it held goes to every neighbour. With nothing
    /// queued there is no round.
    pub fn handle_batch_sending(&mut self) -> (round: Option<BatchRound>)
        ensures
            final(self).queued() == Set::<u32>::empty(),
            final(self).seen() == old(self).seen(),
            final(self).peers == old(self).peers,
            old(self).queued() == Set::<u32>::empty() ==> round is None,
            old(self).queued() != Set::<u32>::empty() ==> {
                &&& round matches Some(r)
                &&& set_elements(r.pending) == old(self).queued()
                &&& r.peers.deep_view() == old(self).peers.deep_view()
                &&& r.next == 0
            },
    {
        let mut pending = set_new();
        std::mem::swap(&mut self.buffer, &mut pending);
        if set_is_empty(&pending) {
            None
        } else {
            Some(BatchRound { pending, peers: clone_names(&self.peers), next: 0 })
        }
    }
}

impl BatchRound {
    /// The request that carries the batch to the next neighbour, or none
    /// when every neighbour has been served. The caller waits for the
    /// acknowledgement under the ticket `slot` before it asks for the next.
    pub fn next_rpc(&mut self, node: &mut Node, slot: u64) -> (out: Option<Message<Request>>)
        ensures
            final(self).peers == old(self).peers,
            final(self).pending == old(self).pending,
            old(self).next >= old(self).peers.len() ==> {
                &&& out is None
                &&& final(self).next == old(self).next
                &&& final(node).same_as(*old(node))
            },
            old(self).next < old(self).peers.len() ==> {
                &&& out matches Some(m)
                &&& final(node).sent_request(
                    *old(node),
                    m@,
                    old(self).peers[old(self).next as int]@,
                    slot,
                )
                &&& m@.payload matches Request::BroadcastBatch { messages } && set_elements(
                    messages,
                ) == set_elements(old(self).pending)
                &&& final(self).next == old(self).next + 1
            },
    {
        if self.next < self.peers.len() {
            let peer = self.peers[self.next].clone();
            let messages = self.pending.clone();
            self.next = self.next + 1;
            Some(node.rpc(peer, Request::BroadcastBatch { messages }, slot))
        } else {
            None
        }
    }
}

/// Routes an acknowledgement (`broadcast_ok` or `broadcast_batch_ok`) to
/// the caller that waits for it.
pub fn handle_broadcast_ok<T>(node: &mut Node, msg: &Message<T>) -> (out: Result<
    Option<Delivery>,
    NodeError,
>)
    ensures
        final(node).id == old(node).id,
        final(node).node_ids == old(node).node_ids,
        final(node).msg_id == old(node).msg_id,
        match msg.body.in_reply_to {
            None => {
                &&& out matches Err(e)
                &&& e@ == (NodeErrorView { reason: "Invalid Ok message"@, source: None })
                &&& final(node).pending() == old(node).pending()
            },
            Some(request) => {
                &&& final(node).pending() == settle(old(node).pending(), msg.src@, request)
                &&& match waiting(old(node).pending(), msg.src@, request) {
                    Some(slot) => out == Ok::<Option<Delivery>, NodeError>(
                        Some(Delivery { slot, result: Ok(Json::Null) }),
                    ),
                    None => out == Ok::<Option<Delivery>, NodeError>(None),
                }
            },
        },
{
    node.ack(msg, Ok(Json::Null))
}

/// A batch kept by a node stays kept: nothing that was seen is lost when a
/// value or a batch comes in.
pub proof fn lemma_seen_grows(seen: Set<u32>, batch: Set<u32>, message: u32, v: u32)
    requires
        seen.contains(v),
    ensures
        seen.insert(message).contains(v),
        seen.union(batch).contains(v),
{
}

/// Two nodes that have each taken a batch with everything the other had
/// seen have seen the same values.
pub proof fn lemma_exchange_agrees(a: Set<u32>, b: Set<u32>)
    ensures
        a.union(b) == b.union(a),
{
    assert(a.union(b) =~= b.union(a));
}

/// Taking the same batch twice changes nothing.
pub proof fn lemma_batch_again(seen: Set<u32>, batch: Set<u32>)
    ensures
        seen.union(batch).union(batch) == seen.union(batch),
{
    assert(seen.union(batch).union(batch) =~= seen.union(batch));
}

/// Dispatches a message of the workload: a value or a batch is taken and
/// acknowledged, `read` and `topology` are answered, and an
/// acknowledgement is routed to the caller that waits for it.
pub fn handle_msg(msg: Message<Request>, node: &mut Node, state: &mut Broadcast) -> (out: Result<
    Handled,
    NodeError,
>)
    ensures
        match msg.body.payload {
            Request::Broadcast { message } => {
                &&& out matches Ok(Handled::Reply(m))
                &&& final(node).sent_reply(*old(node), m@, msg@)
                &&& m@.payload == Request::BroadcastOk
                &&& final(state).seen() == old(state).seen().insert(message)
                &&& final(state).queued() == buffer_after_broadcast(
                    old(state).seen(),
                    old(state).queued(),
                    message,
                )
                &&& final(state).peers == old(state).peers
            },
            Request::BroadcastBatch { messages } => {
                &&& out matches Ok(Handled::Reply(m))
                &&& final(node).sent_reply(*old(node), m@, msg@)
                &&& m@.payload == Request::BroadcastBatchOk
                &&& final(state).seen() == old(state).seen().union(set_elements(messages))
                &&& final(state).queued() == old(state).queued().union(set_elements(messages))
                &&& final(state).peers == old(state).peers
            },
            Request::Read => {
                &&& out matches Ok(Handled::Answer(m))
                &&& final(node).sent_reply(*old(node), m@, msg@)
                &&& m@.payload matches Response::ReadOk { messages } && set_elements(messages)
                    == old(state).seen()
                &&& final(state).seen() == old(state).seen()
                &&& final(state).queued() == old(state).queued()
                &&& final(state).peers == old(state).peers
            },
            Request::Topology { topology } => {
                &&& out matches Ok(Handled::Answer(m))
                &&& final(node).sent_reply(*old(node), m@, msg@)
                &&& m@.payload == Response::TopologyOk
                &&& final(state).peers.deep_view() == (match neighbours(
                    topology@,
                    old(node).id@,
                ) {
                    Some(names) => names,
                    None => old(state).peers.deep_view(),
                })
                &&& final(state).seen() == old(state).seen()
                &&& final(state).queued() == old(state).queued()
            },
            Request::BroadcastOk | Request::BroadcastBatchOk => {
                &&& final(state).seen() == old(state).seen()
                &&& final(state).queued() == old(state).queued()
                &&& final(state).peers == old(state).peers
                &&& final(node).id == old(node).id
                &&& final(node).node_ids == old(node).node_ids
                &&& final(node).msg_id == old(node).msg_id
                &&& match msg.body.in_reply_to {
                    None => {
                        &&& out matches Err(e)
                        &&& e@ == (NodeErrorView {
                            reason: "Invalid Ok message"@,
                            source: None,
                        })
                        &&& final(node).pending() == old(node).pending()
                    },
                    Some(request) => {
                        &&& final(node).pending() == settle(
                            old(node).pending(),
                            msg.src@,
                            request,
                        )
                        &&& match waiting(old(node).pending(), msg.src@, request) {
                            Some(slot) => out == Ok::<Handled, NodeError>(
                                Handled::Routed(
                                    Some(Delivery { slot, result: Ok(Json::Null) }),
                                ),
                            ),
                            None => out == Ok::<Handled, NodeError>(Handled::Routed(None)),
                        }
                    },
                }
            },
        },
{
    let header = Message {
        src: msg.src,
        dst: msg.dst,
        body: Body { msg_id: msg.body.msg_id, in_reply_to: msg.body.in_reply_to, payload: () },
    };
    match msg.body.payload {
        Request::Broadcast { message } => Ok(
            Handled::Reply(state.handle_broadcast(message, node, &header)),
        ),
        Request::BroadcastBatch { messages } => Ok(
            Handled::Reply(state.handle_broadcast_batch(&messages, node, &header)),
        ),
        Request::Read => Ok(Handled::Answer(state.handle_read(node, &header))),
        Request::Topology { topology } => Ok(
            Handled::Answer(state.handle_topology(&topology, node, &header)),
        ),
        Request::BroadcastOk => match handle_broadcast_ok(node, &header) {
            Ok(delivery) => Ok(Handled::Routed(delivery)),
            Err(e) => Err(e),
        },
        Request::BroadcastBatchOk => match handle_broadcast_ok(node, &header) {
            Ok(delivery) => Ok(Handled::Routed(delivery)),
            Err(e) => Err(e),
        },
    }
}

/// Whether a node passes on what it has seen: every value seen is queued
/// for the next batch or went out with an earlier one.
pub open spec fn passes_on(seen: Set<u32>, queued: Set<u32>, sent: Set<u32>) -> bool {
    seen.subset_of(queued.union(sent))
}

/// A node that has seen nothing passes on what it has seen.
pub proof fn lemma_passes_on_at_start()
    ensures
        passes_on(Set::<u32>::empty(), Set::<u32>::empty(), Set::<u32>::empty()),
{
}

/// Taking a value from a client keeps the node passing on what it has
/// seen.
pub proof fn lemma_broadcast_passes_on(
    seen: Set<u32>,
    queued: Set<u32>,
    sent: Set<u32>,
    message: u32,
)
    requires
        passes_on(seen, queued, sent),
    ensures
        passes_on(seen.insert(message), buffer_after_broadcast(seen, queued, message), sent),
{
}

/// Taking a batch from a neighbour keeps the node passing on what it has
/// seen.
pub proof fn lemma_batch_passes_on(
    seen: Set<u32>,
    queued: Set<u32>,
    sent: Set<u32>,
    batch: Set<u32>,
)
    requires
        passes_on(seen, queued, sent),
    ensures
        passes_on(seen.union(batch), queued.union(batch), sent),
{
}

/// Beginning a round of gossip keeps the node passing on what it has seen:
/// what was queued goes out with the round.
pub proof fn lemma_round_passes_on(seen: Set<u32>, queued: Set<u32>, sent: Set<u32>)
    requires
        passes_on(seen, queued, sent),
    ensures
        passes_on(seen, Set::<u32>::empty(), sent.union(queued)),
{
}

/// A round of gossip brings a neighbour up to date: if the neighbour has
/// taken every earlier batch of this node, then after it has taken the
/// batch of the next round it has seen everything this node has seen.
pub proof fn lemma_round_catches_up(
    seen: Set<u32>,
    queued: Set<u32>,
    sent: Set<u32>,
    neighbour_seen: Set<u32>,
)
    requires
        passes_on(seen, queued, sent),
        sent.subset_of(neighbour_seen),
    ensures
        seen.subset_of(neighbour_seen.union(queued)),
{
}

/// Two neighbours that have taken each other's earlier batches, and that
/// learn nothing new from each other's next batch, have seen the same
/// values: their answers to `read` are equal.
pub proof fn lemma_settled_neighbours_agree(
    seen_a: Set<u32>,
    queued_a: Set<u32>,
    sent_a: Set<u32>,
    seen_b: Set<u32>,
    queued_b: Set<u32>,
    sent_b: Set<u32>,
)
    requires
        passes_on(seen_a, queued_a, sent_a),
        passes_on(seen_b, queued_b, sent_b),
        sent_a.subset_of(seen_b),
        sent_b.subset_of(seen_a),
        seen_b.union(queued_a) == seen_b,
        seen_a.union(queued_b) == seen_a,
    ensures
        seen_a == seen_b,
{
    lemma_round_catches_up(seen_a, queued_a, sent_a, seen_b);
    lemma_round_catches_up(seen_b, queued_b, sent_b, seen_a);
    assert(seen_a =~= seen_b);
}

} // verus!
