//! The grow-only counter: every node keeps its own contribution under its
//! own name in `seq-kv`, and the counter is the sum over all nodes.

use crate::error::{JsonDeError, NodeError, NodeErrorView, RpcError};
use crate::json::Json;
use crate::message::Message;
use crate::node::Node;
use crate::service::{read_outcome, undecodable, unexpected, write_outcome, KvRequest};
use crate::text::{decimal, u64_to_string};
use rand::Rng;
use vstd::prelude::*;
use vstd::string::*;

verus! {

/// `rand::thread_rng().gen::<u32>()`: some number; nothing is known of it.
/// The generator seeds itself from the system when a thread first uses it.
#[verifier::external_body]
fn random_u32() -> u32 {
    rand::thread_rng().gen::<u32>()
}

/// What clients ask of the counter.
#[derive(Debug, Clone, PartialEq, Eq)]
pub enum Request {
    Add { delta: u64 },
    Read,
}

/// What the counter answers.
#[derive(Debug, Clone, PartialEq, Eq)]
pub enum Response {
    AddOk,
    ReadOk { value: u64 },
    Error { code: u8, text: String },
}

/// A `read` in progress: the sum so far, and how many nodes' contributions
/// it holds.
#[derive(Debug, Clone, Copy, PartialEq, Eq)]
pub struct ReadState {
    pub value: u64,
    pub next: usize,
}

/// The contribution that the answer to a read of a node's key stands for:
/// the number stored, or zero where the key is missing. Anything else
/// stands for none.
pub open spec fn count_of(reply: Result<Json, RpcError>) -> Option<u64> {
    match reply {
        Ok(Json::UInt(n)) => Some(n),
        Ok(_) => None,
        Err(RpcError::KeyNotFound) => Some(0),
        Err(_) => None,
    }
}

/// The error for an answer that stands for no contribution.
pub open spec fn count_error(reply: Result<Json, RpcError>) -> NodeErrorView {
    match reply {
        Err(e) => unexpected(e),
        Ok(_) => undecodable::<u64>(),
    }
}

/// The key of a barrier write.
pub open spec fn barrier_text(nonce: u32) -> Seq<char> {
    "barrier:"@ + decimal(nonce as nat)
}

/// Whether a message comes from the key-value service of this workload.
pub fn from_seq_kv(src: &String) -> (yes: bool)
    ensures
        yes == (src@ == "seq-kv"@),
{
    let name = String::from_str("seq-kv");
    *src == name
}

/// Reads the contribution out of the answer to a read of a node's key.
pub fn stored_count(reply: Result<Json, RpcError>) -> (out: Result<u64, NodeError>)
    ensures
        match count_of(reply) {
            Some(n) => out == Ok::<u64, NodeError>(n),
            None => out matches Err(e) && e@ == count_error(reply),
        },
{
    match read_outcome(reply) {
        Err(e) => Err(e),
        Ok(None) => Ok(0),
        Ok(Some(value)) => u64::de(&value),
    }
}

/// The key of a barrier write: `barrier:` and the nonce in decimal.
pub fn barrier_key(nonce: u32) -> (key: String)
    ensures
        key@ == barrier_text(nonce),
{
    let mut key = String::from_str("barrier:");
    let digits = u64_to_string(nonce as u64);
    key.append(digits.as_str());
    key
}

/// First step of `add`: asks `seq-kv` for this node's own contribution.
/// The caller waits for the answer under the ticket `slot`.
pub fn handle_add(node: &mut Node, slot: u64) -> (out: Message<KvRequest>)
    ensures
        final(node).sent_request(*old(node), out@, "seq-kv"@, slot),
        out@.payload matches KvRequest::Read { key: Json::Str(name) } && name@ == old(node).id@,
{
    let key = Json::Str(node.id.clone());
    node.kv_read("seq-kv", key, slot)
}

/// Second step of `add`: `reply` answers the read of this node's own
/// contribution. Asks `seq-kv` to store the contribution raised by
/// `delta`; a missing key counts as zero. An answer that stands for no
/// contribution ends the `add` with an error, and nothing is sent.
pub fn add_write(node: &mut Node, delta: u64, reply: Result<Json, RpcError>, slot: u64) -> (out:
    Result<Message<KvRequest>, NodeError>)
    requires
        count_of(reply) matches Some(n) ==> n + delta <= u64::MAX,
    ensures
        match count_of(reply) {
            Some(n) => {
                &&& out matches Ok(m)
                &&& final(node).sent_request(*old(node), m@, "seq-kv"@, slot)
                &&& m@.payload matches KvRequest::Write { key: Json::Str(name), value }
                &&& name@ == old(node).id@
                &&& value == Json::UInt((n + delta) as u64)
            },
            None => {
                &&& out matches Err(e)
                &&& e@ == count_error(reply)
                &&& final(node).same_as(*old(node))
            },
        },
{
    match stored_count(reply) {
        Err(e) => Err(e),
        Ok(n) => {
            let key = Json::Str(node.id.clone());
            Ok(node.kv_write("seq-kv", key, Json::UInt(n + delta), slot))
        },
    }
}

/// Last step of `add`: `reply` answers the write. Where it went through,
/// the client is answered `add_ok`.
pub fn add_done<T>(node: &mut Node, msg: &Message<T>, reply: Result<Json, RpcError>) -> (out:
    Result<Message<Response>, NodeError>)
    ensures
        match reply {
            Ok(_) => {
                &&& out matches Ok(m)
                &&& final(node).sent_reply(*old(node), m@, msg@)
                &&& m@.payload == Response::AddOk
            },
            Err(e) => {
                &&& out matches Err(err)
                &&& err@ == unexpected(e)
                &&& final(node).same_as(*old(node))
            },
        },
{
    match write_outcome(reply) {
        Err(e) => Err(e),
        Ok(()) => Ok(node.reply(msg, Response::AddOk)),
    }
}

/// The barrier write that a `read` begins with: zero, stored under a key
/// made from `nonce`. The caller waits for the answer under the ticket
/// `slot`.
pub fn read_barrier(node: &mut Node, nonce: u32, slot: u64) -> (out: Message<KvRequest>)
    ensures
        final(node).sent_request(*old(node), out@, "seq-kv"@, slot),
        out@.payload matches KvRequest::Write { key: Json::Str(name), value }
            && name@ == barrier_text(nonce) && value == Json::UInt(0),
{
    let key = Json::Str(barrier_key(nonce));
    node.kv_write("seq-kv", key, Json::UInt(0), slot)
}

/// First step of `read`: a barrier write under a key that no earlier write
/// is likely to have used, so that the reads which follow see every write
/// that was acknowledged before. The caller waits for the answer under the
/// ticket `slot`.
pub fn handle_read(node: &mut Node, slot: u64) -> (out: Message<KvRequest>)
    ensures
        final(node).sent_request(*old(node), out@, "seq-kv"@, slot),
        exists|nonce: u32|
            out@.payload matches KvRequest::Write { key: Json::Str(name), value }
                && name@ == #[trigger] barrier_text(nonce) && value == Json::UInt(0),
{
    let nonce = random_u32();
    read_barrier(node, nonce, slot)
}

/// Second step of `read`: `reply` answers the barrier write. Where it went
/// through, the sum starts at zero with no node counted.
pub fn read_begin(reply: Result<Json, RpcError>) -> (out: Result<ReadState, NodeError>)
    ensures
        match reply {
            Ok(_) => out == Ok::<ReadState, NodeError>(ReadState { value: 0, next: 0 }),
            Err(e) => out matches Err(err) && err@ == unexpected(e),
        },
{
    match write_outcome(reply) {
        Err(e) => Err(e),
        Ok(()) => Ok(ReadState { value: 0, next: 0 }),
    }
}

/// Asks `seq-kv` for the contribution of the next node that `state` has
/// not counted, or for nothing when every node is counted. The caller
/// waits for the answer under the ticket `slot`.
pub fn read_next(node: &mut Node, state: &ReadState, slot: u64) -> (out: Option<
    Message<KvRequest>,
>)
    ensures
        state.next >= old(node).node_ids.len() ==> out is None && final(node).same_as(*old(node)),
        state.next < old(node).node_ids.len() ==> {
            &&& out matches Some(m)
            &&& final(node).sent_request(*old(node), m@, "seq-kv"@, slot)
            &&& m@.payload matches KvRequest::Read { key: Json::Str(name) }
            &&& name@ == old(node).node_ids[state.next as int]@
        },
{
    if state.next < node.node_ids.len() {
        let key = Json::Str(node.node_ids[state.next].clone());
        Some(node.kv_read("seq-kv", key, slot))
    } else {
        None
    }
}

/// Adds the contribution that `reply` stands for to the sum, and moves on
/// to the next node. An answer that stands for none ends the `read` with
/// an error.
pub fn read_add(state: ReadState, reply: Result<Json, RpcError>) -> (out: Result<
    ReadState,
    NodeError,
>)
    requires
        state.next < usize::MAX,
        count_of(reply) matches Some(n) ==> state.value + n <= u64::MAX,
    ensures
        match count_of(reply) {
            Some(n) => out == Ok::<ReadState, NodeError>(
                ReadState { value: (state.value + n) as u64, next: (state.next + 1) as usize },
            ),
            None => out matches Err(e) && e@ == count_error(reply),
        },
{
    match stored_count(reply) {
        Err(e) => Err(e),
        Ok(n) => Ok(ReadState { value: state.value + n, next: state.next + 1 }),
    }
}

/// Last step of `read`: answers the client with the sum.
pub fn read_done<T>(node: &mut Node, msg: &Message<T>, state: ReadState) -> (out: Message<
    Response,
>)
    ensures
        final(node).sent_reply(*old(node), out@, msg@),
        out@.payload == (Response::ReadOk { value: state.value }),
{
    node.reply(msg, Response::ReadOk { value: state.value })
}

/// The contribution stored under `id`: zero where nothing is stored.
pub open spec fn contribution(store: Map<Seq<char>, u64>, id: Seq<char>) -> nat {
    if store.contains_key(id) {
        store[id] as nat
    } else {
        0
    }
}

/// The counter: the sum of the contributions of the nodes `ids`.
pub open spec fn total(store: Map<Seq<char>, u64>, ids: Seq<Seq<char>>) -> nat
    decreases ids.len(),
{
    if ids.len() == 0 {
        0
    } else {
        total(store, ids.drop_last()) + contribution(store, ids.last())
    }
}

/// The answer that `seq-kv` gives to a read of `id` when it holds `store`.
pub open spec fn reply_from(store: Map<Seq<char>, u64>, id: Seq<char>) -> Result<
    Json,
    RpcError,
> {
    if store.contains_key(id) {
        Ok(Json::UInt(store[id]))
    } else {
        Err(RpcError::KeyNotFound)
    }
}

/// The store after the node `id` added `delta`: its own contribution is
/// raised, and nothing else changes.
pub open spec fn store_after_add(store: Map<Seq<char>, u64>, id: Seq<char>, delta: u64) -> Map<
    Seq<char>,
    u64,
> {
    store.insert(id, (contribution(store, id) + delta) as u64)
}

/// What a read of `id` finds in `store` counts as the contribution of `id`.
pub proof fn lemma_reply_counts(store: Map<Seq<char>, u64>, id: Seq<char>)
    ensures
        count_of(reply_from(store, id)) == Some(contribution(store, id) as u64),
{
}

/// An `add` by another node leaves the sum over nodes that are not that
/// node as it was.
proof fn lemma_total_ignores(store: Map<Seq<char>, u64>, ids: Seq<Seq<char>>, id: Seq<char>, delta: u64)
    requires
        !ids.contains(id),
    ensures
        total(store_after_add(store, id, delta), ids) == total(store, ids),
    decreases ids.len(),
{
    if ids.len() > 0 {
        let rest = ids.drop_last();
        assert forall|x: Seq<char>| rest.contains(x) implies ids.contains(x) by {
            let i = choose|i: int| 0 <= i < rest.len() && rest[i] == x;
            assert(ids[i] == x);
        }
        assert(ids[ids.len() - 1] == ids.last());
        lemma_total_ignores(store, rest, id, delta);
    }
}

/// Every `add` counts exactly once: when a node of the cluster adds
/// `delta`, the counter over the cluster rises by `delta`.
pub proof fn lemma_add_raises_total(
    store: Map<Seq<char>, u64>,
    ids: Seq<Seq<char>>,
    id: Seq<char>,
    delta: u64,
)
    requires
        ids.no_duplicates(),
        ids.contains(id),
        contribution(store, id) + delta <= u64::MAX,
    ensures
        total(store_after_add(store, id, delta), ids) == total(store, ids) + delta,
    decreases ids.len(),
{
    let rest = ids.drop_last();
    if ids.last() == id {
        assert(!rest.contains(id)) by {
            if rest.contains(id) {
                let i = choose|i: int| 0 <= i < rest.len() && rest[i] == id;
                assert(ids[i] == ids[ids.len() - 1]);
            }
        }
        lemma_total_ignores(store, rest, id, delta);
    } else {
        let i = choose|i: int| 0 <= i < ids.len() && ids[i] == id;
        assert(rest[i] == id);
        assert(rest.no_duplicates());
        lemma_add_raises_total(store, rest, id, delta);
    }
}

/// Dispatches a request of a client: the first step of `add` or of `read`.
/// The caller waits for the answer of `seq-kv` under the ticket `slot`.
pub fn handle_msg(request: &Request, node: &mut Node, slot: u64) -> (out: Message<KvRequest>)
    ensures
        final(node).sent_request(*old(node), out@, "seq-kv"@, slot),
        match request {
            Request::Add { .. } => out@.payload matches KvRequest::Read { key: Json::Str(name) }
                && name@ == old(node).id@,
            Request::Read => exists|nonce: u32|
                out@.payload matches KvRequest::Write { key: Json::Str(name), value } && name@
                    == #[trigger] barrier_text(nonce) && value == Json::UInt(0),
        },
{
    match request {
        Request::Add { .. } => handle_add(node, slot),
        Request::Read => handle_read(node, slot),
    }
}

/// The sum that a `read` holds after it counted the first `k` of the nodes
/// `ids`, each with what `store` answers for it.
pub open spec fn counted(store: Map<Seq<char>, u64>, ids: Seq<Seq<char>>, k: nat) -> nat
    decreases k,
{
    if k == 0 || k > ids.len() {
        0
    } else {
        counted(store, ids, (k - 1) as nat) + (count_of(
            reply_from(store, ids[k - 1]),
        )->Some_0 as nat)
    }
}

/// A `read` that counts every node against one state of the store answers
/// with the counter: the sum of all contributions.
pub proof fn lemma_read_counts_total(store: Map<Seq<char>, u64>, ids: Seq<Seq<char>>, k: nat)
    requires
        k <= ids.len(),
    ensures
        counted(store, ids, k) == total(store, ids.take(k as int)),
    decreases k,
{
    if k > 0 {
        lemma_read_counts_total(store, ids, (k - 1) as nat);
        assert(ids.take(k as int).drop_last() =~= ids.take(k - 1));
        assert(ids.take(k as int).last() == ids[k - 1]);
    }
}

/// The sum of the deltas of a list of `add`s, each given as the node that
/// added and its delta.
pub open spec fn sum_of(adds: Seq<(Seq<char>, u64)>) -> nat
    decreases adds.len(),
{
    if adds.len() == 0 {
        0
    } else {
        sum_of(adds.drop_last()) + (adds.last().1 as nat)
    }
}

/// The store after a list of `add`s, one after the other.
pub open spec fn store_after_adds(store: Map<Seq<char>, u64>, adds: Seq<(Seq<char>, u64)>) -> Map<
    Seq<char>,
    u64,
>
    decreases adds.len(),
{
    if adds.len() == 0 {
        store
    } else {
        store_after_add(store_after_adds(store, adds.drop_last()), adds.last().0, adds.last().1)
    }
}

/// The contribution of one node of the cluster is no more than the counter.
proof fn lemma_contribution_in_total(store: Map<Seq<char>, u64>, ids: Seq<Seq<char>>, id: Seq<char>)
    requires
        ids.contains(id),
    ensures
        contribution(store, id) <= total(store, ids),
    decreases ids.len(),
{
    if ids.last() != id {
        let i = choose|i: int| 0 <= i < ids.len() && ids[i] == id;
        assert(ids.drop_last()[i] == id);
        lemma_contribution_in_total(store, ids.drop_last(), id);
    }
}

/// After any list of `add`s by nodes of the cluster, starting with nothing
/// stored, the counter is the sum of all their deltas, and a `read` that
/// counts every node answers with it.
pub proof fn lemma_counter_is_sum_of_adds(ids: Seq<Seq<char>>, adds: Seq<(Seq<char>, u64)>)
    requires
        ids.no_duplicates(),
        forall|k: int| 0 <= k < adds.len() ==> ids.contains((#[trigger] adds[k]).0),
        sum_of(adds) <= u64::MAX,
    ensures
        total(store_after_adds(Map::empty(), adds), ids) == sum_of(adds),
        counted(store_after_adds(Map::empty(), adds), ids, ids.len()) == sum_of(adds),
    decreases adds.len(),
{
    let store = store_after_adds(Map::empty(), adds);
    if adds.len() == 0 {
        lemma_total_of_nothing(ids);
    } else {
        let earlier = adds.drop_last();
        assert forall|k: int| 0 <= k < earlier.len() implies ids.contains(
            (#[trigger] earlier[k]).0,
        ) by {
            assert(earlier[k] == adds[k]);
        }
        lemma_counter_is_sum_of_adds(ids, earlier);
        let before = store_after_adds(Map::empty(), earlier);
        assert(adds.last() == adds[adds.len() - 1]);
        lemma_contribution_in_total(before, ids, adds.last().0);
        lemma_add_raises_total(before, ids, adds.last().0, adds.last().1);
    }
    lemma_read_counts_total(store, ids, ids.len());
    assert(ids.take(ids.len() as int) =~= ids);
}

/// With nothing stored the counter is zero.
proof fn lemma_total_of_nothing(ids: Seq<Seq<char>>)
    ensures
        total(Map::empty(), ids) == 0,
    decreases ids.len(),
{
    if ids.len() > 0 {
        lemma_total_of_nothing(ids.drop_last());
    }
}

} // verus!
