//! The node: its identity, its message numbers, and the requests it has
//! sent that still wait for an answer.

use crate::error::{NodeError, NodeErrorView, RpcError};
use crate::json::Json;
use crate::message::{Init, InitOk, Message, MessageView};
use crate::pending::{
    pending_entries, table_insert, table_new, table_remove, PendingKey, PendingTable,
};
use vstd::prelude::*;

verus! {

/// The number that follows `id`. After the largest number the count starts
/// again at zero.
pub open spec fn next_msg_id(id: u32) -> u32 {
    if id == u32::MAX {
        0
    } else {
        (id + 1) as u32
    }
}

/// The number handed out `n` allocations after `start`.
pub open spec fn msg_id_after(start: u32, n: nat) -> u32
    decreases n,
{
    if n == 0 {
        start
    } else {
        next_msg_id(msg_id_after(start, (n - 1) as nat))
    }
}

/// Registering a request in the table of pending requests.
pub open spec fn register(
    pending: Map<PendingKey, u64>,
    peer: Seq<char>,
    msg_id: u32,
    slot: u64,
) -> Map<PendingKey, u64> {
    pending.insert((peer, msg_id), slot)
}

/// The caller that an answer from `peer` to request `msg_id` wakes, if one
/// still waits.
pub open spec fn waiting(pending: Map<PendingKey, u64>, peer: Seq<char>, msg_id: u32) -> Option<
    u64,
> {
    if pending.contains_key((peer, msg_id)) {
        Some(pending[(peer, msg_id)])
    } else {
        None
    }
}

/// The table after an answer from `peer` to request `msg_id` was handled,
/// or after the caller gave the request up.
pub open spec fn settle(pending: Map<PendingKey, u64>, peer: Seq<char>, msg_id: u32) -> Map<PendingKey, u64> {
    pending.remove((peer, msg_id))
}

/// A node of the cluster.
pub struct Node {
    /// The name this node was given.
    pub id: String,
    /// The names of all nodes of the cluster, this one included.
    pub node_ids: Vec<String>,
    /// The number that the next message sent will carry.
    pub msg_id: u32,
    /// The requests that wait for an answer.
    pub pending_reply: PendingTable,
}

/// An answer on its way to the caller that waits for it.
#[derive(Debug, PartialEq, Eq)]
pub struct Delivery {
    /// The ticket under which the caller registered its request.
    pub slot: u64,
    /// What the peer answered.
    pub result: Result<Json, RpcError>,
}

/// What happened to a request that waits for its answer.
#[derive(Debug, PartialEq, Eq)]
pub enum RpcEvent {
    /// The retry timer fired.
    Timeout,
    /// The answer was delivered.
    Delivered(Result<Json, RpcError>),
    /// The slot was closed without an answer.
    Closed,
}

/// What the caller of a request does next.
#[derive(Debug, PartialEq, Eq)]
pub enum RpcAction {
    /// Send the same envelope once more and go on waiting.
    Resend,
    /// Stop waiting: this is the answer.
    Return(Result<Json, RpcError>),
    /// Stop waiting: the request has failed.
    Fail(NodeError),
}

impl Node {
    /// The requests that wait for an answer: for each peer and request
    /// number, the ticket of the caller.
    pub open spec fn pending(&self) -> Map<PendingKey, u64> {
        pending_entries(self.pending_reply)
    }

    /// Whether this node is `before` with nothing sent and nothing routed.
    pub open spec fn same_as(&self, before: Node) -> bool {
        &&& self.id == before.id
        &&& self.node_ids == before.node_ids
        &&& self.msg_id == before.msg_id
        &&& self.pending() == before.pending()
    }

    /// Whether this node is `before` after it sent `out` as a request to
    /// `peer`, for whose answer a caller waits under the ticket `slot`.
    pub open spec fn sent_request<P>(
        &self,
        before: Node,
        out: MessageView<P>,
        peer: Seq<char>,
        slot: u64,
    ) -> bool {
        &&& out.src == before.id@
        &&& out.dst == peer
        &&& out.msg_id == Some(before.msg_id)
        &&& out.in_reply_to is None
        &&& self.id == before.id
        &&& self.node_ids == before.node_ids
        &&& self.msg_id == next_msg_id(before.msg_id)
        &&& self.pending() == register(before.pending(), peer, before.msg_id, slot)
    }

    /// Whether this node is `before` after it sent `out` in answer to
    /// `request`.
    pub open spec fn sent_reply<T, P>(
        &self,
        before: Node,
        out: MessageView<P>,
        request: MessageView<T>,
    ) -> bool {
        &&& out.src == request.dst
        &&& out.dst == request.src
        &&& out.msg_id == Some(before.msg_id)
        &&& out.in_reply_to == request.msg_id
        &&& self.id == before.id
        &&& self.node_ids == before.node_ids
        &&& self.msg_id == next_msg_id(before.msg_id)
        &&& self.pending() == before.pending()
    }

    /// Builds the node from the `init` message, together with the `init_ok`
    /// that answers it. The answer carries no number of its own; the first
    /// message sent afterwards is number 1.
    pub fn new(init_msg: Message<Init>) -> (r: (Node, Message<InitOk>))
        ensures
            r.0.id@ == init_msg.body.payload.node_id@,
            r.0.node_ids == init_msg.body.payload.node_ids,
            r.0.msg_id == 1,
            r.0.pending() == Map::<PendingKey, u64>::empty(),
            r.1@ == init_msg@.reply(None, InitOk {  }),
    {
        let reply = init_msg.reply(None, InitOk {  });
        let node = Node {
            id: init_msg.body.payload.node_id,
            node_ids: init_msg.body.payload.node_ids,
            msg_id: 1,
            pending_reply: table_new(),
        };
        (node, reply)
    }

    /// Takes the next message number.
    fn next_id(&mut self) -> (id: u32)
        ensures
            id == old(self).msg_id,
            final(self).msg_id == next_msg_id(old(self).msg_id),
            final(self).id == old(self).id,
            final(self).node_ids == old(self).node_ids,
            final(self).pending() == old(self).pending(),
    {
        let id = self.msg_id;
        self.msg_id = id.wrapping_add(1);
        id
    }

    /// A new message to `peer`. Nobody waits for an answer to it.
    pub fn send<P>(&mut self, peer: String, msg: P) -> (out: Message<P>)
        ensures
            out@ == (MessageView {
                src: old(self).id@,
                dst: peer@,
                msg_id: Some(old(self).msg_id),
                in_reply_to: None,
                payload: msg,
            }),
            final(self).msg_id == next_msg_id(old(self).msg_id),
            final(self).id == old(self).id,
            final(self).node_ids == old(self).node_ids,
            final(self).pending() == old(self).pending(),
    {
        let id = self.next_id();
        Message::new(self.id.clone(), peer, Some(id), msg)
    }

    /// The answer to `from`, under a new message number.
    pub fn reply<T, P>(&mut self, from: &Message<T>, msg: P) -> (out: Message<P>)
        ensures
            out@ == from@.reply(Some(old(self).msg_id), msg),
            final(self).msg_id == next_msg_id(old(self).msg_id),
            final(self).id == old(self).id,
            final(self).node_ids == old(self).node_ids,
            final(self).pending() == old(self).pending(),
    {
        let id = self.next_id();
        from.reply(Some(id), msg)
    }

    /// A new request to `peer`. The caller waits for the answer under the
    /// ticket `slot`; until [`Node::ack`] hands that ticket back, or the
    /// caller gives up with [`Node::cancel`], the request is pending. The
    /// envelope returned is the one to send, and to send again unchanged
    /// whenever the retry timer fires.
    pub fn rpc<P>(&mut self, peer: String, msg: P, slot: u64) -> (out: Message<P>)
        ensures
            out@ == (MessageView {
                src: old(self).id@,
                dst: peer@,
                msg_id: Some(old(self).msg_id),
                in_reply_to: None,
                payload: msg,
            }),
            final(self).msg_id == next_msg_id(old(self).msg_id),
            final(self).id == old(self).id,
            final(self).node_ids == old(self).node_ids,
            final(self).pending() == register(
                old(self).pending(),
                peer@,
                old(self).msg_id,
                slot,
            ),
    {
        let id = self.next_id();
        table_insert(&mut self.pending_reply, peer.clone(), id, slot);
        Message::new(self.id.clone(), peer, Some(id), msg)
    }

    /// Routes an answer. `msg` is the answer as it arrived and `val` what it
    /// says. If a caller waits for an answer from `msg.src` to the request
    /// that `msg` names, the request stops being pending and the caller's
    /// ticket is returned with `val`. If nobody waits (the answer came
    /// twice, or the caller gave up), nothing changes. An answer that names
    /// no request is an error.
    pub fn ack<T>(&mut self, msg: &Message<T>, val: Result<Json, RpcError>) -> (out: Result<
        Option<Delivery>,
        NodeError,
    >)
        ensures
            final(self).id == old(self).id,
            final(self).node_ids == old(self).node_ids,
            final(self).msg_id == old(self).msg_id,
            match msg.body.in_reply_to {
                None => {
                    &&& out matches Err(e)
                    &&& e@ == (NodeErrorView { reason: "Invalid Ok message"@, source: None })
                    &&& final(self).pending() == old(self).pending()
                },
                Some(request) => {
                    &&& final(self).pending() == settle(old(self).pending(), msg.src@, request)
                    &&& match waiting(old(self).pending(), msg.src@, request) {
                        Some(slot) => out == Ok::<Option<Delivery>, NodeError>(
                            Some(Delivery { slot, result: val }),
                        ),
                        None => out == Ok::<Option<Delivery>, NodeError>(None),
                    }
                },
            },
    {
        match msg.body.in_reply_to {
            Some(request) => {
                match table_remove(&mut self.pending_reply, &msg.src, request) {
                    Some(slot) => Ok(Some(Delivery { slot, result: val })),
                    None => Ok(None),
                }
            },
            None => Err(NodeError::new("Invalid Ok message")),
        }
    }

    /// Gives up the request `msg_id` to `peer`. An answer that arrives
    /// later finds nobody waiting.
    pub fn cancel(&mut self, peer: &String, msg_id: u32) -> (slot: Option<u64>)
        ensures
            final(self).id == old(self).id,
            final(self).node_ids == old(self).node_ids,
            final(self).msg_id == old(self).msg_id,
            final(self).pending() == settle(old(self).pending(), peer@, msg_id),
            slot == waiting(old(self).pending(), peer@, msg_id),
    {
        table_remove(&mut self.pending_reply, peer, msg_id)
    }
}

/// Decides what the caller of a request does when something happens while
/// it waits: on the retry timer it sends the same envelope again, on
/// delivery it returns the answer, and if the slot was closed without an
/// answer the request has failed.
pub fn rpc_step(event: RpcEvent) -> (action: RpcAction)
    ensures
        match event {
            RpcEvent::Timeout => action == RpcAction::Resend,
            RpcEvent::Delivered(result) => action == RpcAction::Return(result),
            RpcEvent::Closed => action matches RpcAction::Fail(e) && e@ == (NodeErrorView {
                reason: "Failed to receive RPC reply"@,
                source: None,
            }),
        },
{
    match event {
        RpcEvent::Timeout => RpcAction::Resend,
        RpcEvent::Delivered(result) => RpcAction::Return(result),
        RpcEvent::Closed => RpcAction::Fail(NodeError::new("Failed to receive RPC reply")),
    }
}

/// The `n`-th number after `start` is `start + n`, counted modulo 2^32.
pub proof fn lemma_msg_id_after(start: u32, n: nat)
    ensures
        msg_id_after(start, n) == (start + n) % 0x1_0000_0000,
    decreases n,
{
    if n > 0 {
        lemma_msg_id_after(start, (n - 1) as nat);
    }
}

/// No message number is handed out twice, as long as fewer than 2^32
/// numbers lie between the two allocations.
pub proof fn lemma_msg_ids_unique(start: u32, i: nat, j: nat)
    requires
        i < j,
        j - i < 0x1_0000_0000,
    ensures
        msg_id_after(start, i) != msg_id_after(start, j),
{
    lemma_msg_id_after(start, i);
    lemma_msg_id_after(start, j);
}

/// An answer wakes the caller of a request exactly when it comes from the
/// peer that the request went to and names the request's number; any other
/// answer finds the table as if the request had not been made.
pub proof fn lemma_answer_matches_request(
    pending: Map<PendingKey, u64>,
    peer: Seq<char>,
    msg_id: u32,
    slot: u64,
    from: Seq<char>,
    in_reply_to: u32,
)
    ensures
        waiting(register(pending, peer, msg_id, slot), from, in_reply_to) == (if from == peer
            && in_reply_to == msg_id {
            Some(slot)
        } else {
            waiting(pending, from, in_reply_to)
        }),
{
}

/// Once an answer was handled, or the caller gave up, a second answer to
/// the same request wakes nobody, and the other requests wait as before.
pub proof fn lemma_answer_wakes_once(
    pending: Map<PendingKey, u64>,
    peer: Seq<char>,
    msg_id: u32,
    from: Seq<char>,
    in_reply_to: u32,
)
    ensures
        waiting(settle(pending, peer, msg_id), peer, msg_id) is None,
        (from, in_reply_to) != (peer, msg_id) ==> waiting(
            settle(pending, peer, msg_id),
            from,
            in_reply_to,
        ) == waiting(pending, from, in_reply_to),
{
}

} // verus!
