//! The transactional register: a map from keys to values, read and written
//! by lists of operations.

use crate::message::Message;
use crate::node::Node;
use dashmap::DashMap;
use vstd::prelude::*;

verus! {

/// The register: a [`dashmap::DashMap`] from keys to values.
pub type State = DashMap<u64, u64>;

/// What the register holds.
pub uninterp spec fn register_entries(state: State) -> Map<u64, u64>;

/// `DashMap::new`: a register without entries.
#[verifier::external_body]
fn state_new() -> (state: State)
    ensures
        register_entries(state) == (Map::<u64, u64>::empty()),
{
    DashMap::new()
}

/// `DashMap::get`: the value under `key`, if the key is present.
#[verifier::external_body]
fn state_get(state: &State, key: u64) -> (val: Option<u64>)
    ensures
        val == (if register_entries(*state).contains_key(key) {
            Some(register_entries(*state)[key])
        } else {
            None
        }),
{
    state.get(&key).map(|entry| *entry)
}

/// `DashMap::insert`: afterwards `key` maps to `val` and every other key is
/// as before; the value that `key` had is returned.
#[verifier::external_body]
fn state_insert(state: &mut State, key: u64, val: u64) -> (prev: Option<u64>)
    ensures
        register_entries(*final(state)) == register_entries(*old(state)).insert(key, val),
        prev == (if register_entries(*old(state)).contains_key(key) {
            Some(register_entries(*old(state))[key])
        } else {
            None
        }),
{
    state.insert(key, val)
}

/// The kind of an operation.
#[derive(Debug, Clone, Copy, PartialEq, Eq)]
pub enum OpType {
    Read,
    Write,
}

/// One operation of a transaction: its kind, its key, and the value
/// written or read.
#[derive(Debug, Clone, Copy, PartialEq, Eq)]
pub struct Op {
    pub kind: OpType,
    pub key: u64,
    pub val: Option<u64>,
}

/// What clients ask of the register.
#[derive(Debug, Clone, PartialEq, Eq)]
pub enum Request {
    Txn { txn: Vec<Op> },
}

/// What the register answers.
#[derive(Debug, Clone, PartialEq, Eq)]
pub enum Response {
    TxnOk { txn: Vec<Op> },
}

/// The value under `key`, if there is one.
pub open spec fn lookup(state: Map<u64, u64>, key: u64) -> Option<u64> {
    if state.contains_key(key) {
        Some(state[key])
    } else {
        None
    }
}

/// The register after one operation. A read leaves it as it is; a write
/// that carries a value stores it.
pub open spec fn state_after_op(state: Map<u64, u64>, op: Op) -> Map<u64, u64> {
    match (op.kind, op.val) {
        (OpType::Write, Some(val)) => state.insert(op.key, val),
        _ => state,
    }
}

/// The operation as it is answered. A read carries the value found, or
/// none where the key is missing; a write is answered as it came.
pub open spec fn completed_op(state: Map<u64, u64>, op: Op) -> Op {
    match op.kind {
        OpType::Read => Op { kind: OpType::Read, key: op.key, val: lookup(state, op.key) },
        OpType::Write => op,
    }
}

/// The register after the operations `ops`, applied in order.
pub open spec fn state_after(state: Map<u64, u64>, ops: Seq<Op>) -> Map<u64, u64>
    decreases ops.len(),
{
    if ops.len() == 0 {
        state
    } else {
        state_after_op(state_after(state, ops.drop_last()), ops.last())
    }
}

/// The operations `ops` as they are answered: each one sees the register
/// as the operations before it left it.
pub open spec fn completed(state: Map<u64, u64>, ops: Seq<Op>) -> Seq<Op> {
    Seq::new(ops.len(), |i: int| completed_op(state_after(state, ops.take(i)), ops[i]))
}

/// An empty register.
pub fn new_state() -> (state: State)
    ensures
        register_entries(state) == (Map::<u64, u64>::empty()),
{
    state_new()
}

/// Applies one operation to the register and completes it.
pub fn apply_op(state: &mut State, op: Op) -> (done: Op)
    ensures
        register_entries(*final(state)) == state_after_op(register_entries(*old(state)), op),
        done == completed_op(register_entries(*old(state)), op),
{
    match op.kind {
        OpType::Read => Op { kind: OpType::Read, key: op.key, val: state_get(state, op.key) },
        OpType::Write => {
            if let Some(val) = op.val {
                state_insert(state, op.key, val);
            }
            op
        },
    }
}

/// Applies the operations of a transaction in order and completes them.
pub fn apply_txn(txn: Vec<Op>, state: &mut State) -> (done: Vec<Op>)
    ensures
        register_entries(*final(state)) == state_after(register_entries(*old(state)), txn@),
        done@ == completed(register_entries(*old(state)), txn@),
{
    let mut done: Vec<Op> = Vec::new();
    let mut i: usize = 0;
    assert(txn@.take(0) =~= Seq::<Op>::empty());
    while i < txn.len()
        invariant
            i <= txn.len(),
            done.len() == i,
            register_entries(*state) == state_after(register_entries(*old(state)), txn@.take(i as int)),
            forall|j: int|
                0 <= j < i ==> done[j] == completed_op(
                    state_after(register_entries(*old(state)), txn@.take(j)),
                    txn[j],
                ),
        decreases txn.len() - i,
    {
        let op = txn[i];
        let answered = apply_op(state, op);
        done.push(answered);
        proof {
            let next = txn@.take(i + 1);
            assert(next.drop_last() =~= txn@.take(i as int));
            assert(next.last() == txn[i as int]);
        }
        i += 1;
    }
    assert(txn@.take(txn.len() as int) =~= txn@);
    assert(done@ =~= completed(register_entries(*old(state)), txn@));
    done
}

/// Answers a transaction: its operations are applied to the register in
/// order, and the answer carries them completed.
pub fn handle_txn<T>(txn: Vec<Op>, node: &mut Node, msg: &Message<T>, state: &mut State) -> (out:
    Message<Response>)
    ensures
        register_entries(*final(state)) == state_after(register_entries(*old(state)), txn@),
        final(node).sent_reply(*old(node), out@, msg@),
        out@.payload matches Response::TxnOk { txn: done } && done@ == completed(
            register_entries(*old(state)),
            txn@,
        ),
{
    let done = apply_txn(txn, state);
    node.reply(msg, Response::TxnOk { txn: done })
}

/// Dispatches a request of a client.
pub fn handle_msg(msg: Message<Request>, node: &mut Node, state: &mut State) -> (out: Message<
    Response,
>)
    ensures
        msg.body.payload matches Request::Txn { txn } && {
            &&& register_entries(*final(state)) == state_after(
                register_entries(*old(state)),
                txn@,
            )
            &&& out@.payload matches Response::TxnOk { txn: done } && done@ == completed(
                register_entries(*old(state)),
                txn@,
            )
        },
        final(node).sent_reply(*old(node), out@, msg@),
{
    let header = Message {
        src: msg.src,
        dst: msg.dst,
        body: crate::message::Body {
            msg_id: msg.body.msg_id,
            in_reply_to: msg.body.in_reply_to,
            payload: (),
        },
    };
    match msg.body.payload {
        Request::Txn { txn } => handle_txn(txn, node, &header, state),
    }
}

} // verus!
