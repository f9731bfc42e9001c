//! The client of the key-value services `seq-kv` and `lin-kv`: the requests
//! it sends, the answers it understands, and the read-modify-write built on
//! compare-and-swap.

use crate::error::{
    JsonDeError, JsonSerError, NodeError, NodeErrorKind, NodeErrorKindView, NodeErrorView,
    RpcError,
};
use crate::json::Json;
use crate::message::Message;
use crate::node::{settle, waiting, Delivery, Node};
use vstd::prelude::*;
use vstd::string::*;

verus! {

/// A request to a key-value service.
#[derive(Debug, Clone, PartialEq, Eq)]
pub enum KvRequest {
    Read { key: Json },
    Write { key: Json, value: Json },
    Cas { key: Json, from: Json, to: Json, create_if_not_exists: Option<bool> },
}

/// An answer of a key-value service.
#[derive(Debug, Clone, PartialEq, Eq)]
pub enum KvResponse {
    ReadOk { value: Json },
    WriteOk,
    CasOk,
    Error { code: u8, text: String },
}

/// Whether a message comes from a key-value service.
pub fn from_kv(src: &String) -> (yes: bool)
    ensures
        yes == (src@ == "seq-kv"@ || src@ == "lin-kv"@),
{
    let seq = String::from_str("seq-kv");
    let lin = String::from_str("lin-kv");
    *src == seq || *src == lin
}

/// What an answer of a key-value service means to the caller that waits:
/// the value read, nothing for a write or a swap that went through, or the
/// error that the code stands for.
pub open spec fn kv_outcome(response: KvResponse) -> Result<Json, RpcError> {
    match response {
        KvResponse::ReadOk { value } => Ok(value),
        KvResponse::WriteOk => Ok(Json::Null),
        KvResponse::CasOk => Ok(Json::Null),
        KvResponse::Error { code, text } => Err(RpcError::of_code(code, text)),
    }
}

/// The error for an answer that the caller cannot use.
pub open spec fn unexpected(e: RpcError) -> NodeErrorView {
    NodeErrorView {
        reason: "Unexpected response from seq-kv"@,
        source: Some(NodeErrorKindView::Rpc(e@)),
    }
}

fn unexpected_response(e: RpcError) -> (out: NodeError)
    ensures
        out@ == unexpected(e),
{
    NodeError::new_with("Unexpected response from seq-kv", NodeErrorKind::Rpc(e))
}

/// What a read found: the value, or nothing where the key is missing. Any
/// other error of the service is unexpected.
pub fn read_outcome(reply: Result<Json, RpcError>) -> (out: Result<Option<Json>, NodeError>)
    ensures
        match reply {
            Ok(value) => out == Ok::<Option<Json>, NodeError>(Some(value)),
            Err(RpcError::KeyNotFound) => out == Ok::<Option<Json>, NodeError>(None),
            Err(e) => out matches Err(err) && err@ == unexpected(e),
        },
{
    match reply {
        Ok(value) => Ok(Some(value)),
        Err(RpcError::KeyNotFound) => Ok(None),
        Err(e) => Err(unexpected_response(e)),
    }
}

/// Whether a write went through. Any error of the service is unexpected.
pub fn write_outcome(reply: Result<Json, RpcError>) -> (out: Result<(), NodeError>)
    ensures
        match reply {
            Ok(_) => out == Ok::<(), NodeError>(()),
            Err(e) => out matches Err(err) && err@ == unexpected(e),
        },
{
    match reply {
        Ok(_) => Ok(()),
        Err(e) => Err(unexpected_response(e)),
    }
}

/// Whether a swap took place: yes when the service says so, no when the
/// value was not the one expected. Any other error is unexpected.
pub fn cas_outcome(reply: Result<Json, RpcError>) -> (out: Result<bool, NodeError>)
    ensures
        match reply {
            Ok(_) => out == Ok::<bool, NodeError>(true),
            Err(RpcError::CasFailed(_)) => out == Ok::<bool, NodeError>(false),
            Err(e) => out matches Err(err) && err@ == unexpected(e),
        },
{
    match reply {
        Ok(_) => Ok(true),
        Err(RpcError::CasFailed(_)) => Ok(false),
        Err(e) => Err(unexpected_response(e)),
    }
}

impl Node {
    /// Routes an answer of a key-value service to the caller that waits
    /// for it, as [`Node::ack`] does, with what the answer means.
    pub fn handle_kv(&mut self, msg: Message<KvResponse>) -> (out: Result<
        Option<Delivery>,
        NodeError,
    >)
        ensures
            final(self).id == old(self).id,
            final(self).node_ids == old(self).node_ids,
            final(self).msg_id == old(self).msg_id,
            match msg.body.in_reply_to {
                None => {
                    &&& out matches Err(e)
                    &&& e@ == (NodeErrorView { reason: "Invalid Ok message"@, source: None })
                    &&& final(self).pending() == old(self).pending()
                },
                Some(request) => {
                    &&& final(self).pending() == settle(old(self).pending(), msg.src@, request)
                    &&& match waiting(old(self).pending(), msg.src@, request) {
                        Some(slot) => out == Ok::<Option<Delivery>, NodeError>(
                            Some(Delivery { slot, result: kv_outcome(msg.body.payload) }),
                        ),
                        None => out == Ok::<Option<Delivery>, NodeError>(None),
                    }
                },
            },
    {
        let src = msg.src;
        let dst = msg.dst;
        let msg_id = msg.body.msg_id;
        let in_reply_to = msg.body.in_reply_to;
        let val = match msg.body.payload {
            KvResponse::ReadOk { value } => Ok(value),
            KvResponse::WriteOk => Ok(Json::Null),
            KvResponse::CasOk => Ok(Json::Null),
            KvResponse::Error { code, text } => Err(RpcError::from_code(code, text)),
        };
        let header = Message {
            src,
            dst,
            body: crate::message::Body { msg_id, in_reply_to, payload: () },
        };
        self.ack(&header, val)
    }

    /// Asks the service `svc` for the value of `key`. The caller waits
    /// under the ticket `slot`; [`read_outcome`] reads the answer.
    pub fn kv_read(&mut self, svc: &str, key: Json, slot: u64) -> (out: Message<KvRequest>)
        ensures
            final(self).sent_request(*old(self), out@, svc@, slot),
            out@.payload == (KvRequest::Read { key }),
    {
        self.rpc(String::from_str(svc), KvRequest::Read { key }, slot)
    }

    /// Asks the service `svc` to store `val` under `key`. The caller waits
    /// under the ticket `slot`; [`write_outcome`] reads the answer.
    pub fn kv_write(&mut self, svc: &str, key: Json, val: Json, slot: u64) -> (out: Message<
        KvRequest,
    >)
        ensures
            final(self).sent_request(*old(self), out@, svc@, slot),
            out@.payload == (KvRequest::Write { key, value: val }),
    {
        self.rpc(String::from_str(svc), KvRequest::Write { key, value: val }, slot)
    }

    /// Asks the service `svc` to replace the value of `key` by `to` if it
    /// is `from`, and to create the key if it is missing. The caller waits
    /// under the ticket `slot`; [`cas_outcome`] reads the answer.
    pub fn kv_cas(&mut self, svc: &str, key: Json, from: Json, to: Json, slot: u64) -> (out:
        Message<KvRequest>)
        ensures
            final(self).sent_request(*old(self), out@, svc@, slot),
            out@.payload == (KvRequest::Cas { key, from, to, create_if_not_exists: Some(true) }),
    {
        self.rpc(
            String::from_str(svc),
            KvRequest::Cas { key, from, to, create_if_not_exists: Some(true) },
            slot,
        )
    }
}

/// One attempt of a read-modify-write: the swap to ask the service for,
/// and the value to hand back once it went through.
#[derive(Debug, PartialEq, Eq)]
pub struct Swap<T> {
    /// The new value, typed.
    pub val: T,
    /// What was read; `null` where the key was missing.
    pub from: Json,
    /// The new value, as it is stored.
    pub to: Json,
}

/// The error for a key that was there at first and is gone after a swap
/// failed.
pub open spec fn lost_after_cas() -> NodeErrorView {
    NodeErrorView { reason: "Failed to read after CAS"@, source: None }
}

/// The error for a stored value that is not of the type expected.
pub open spec fn undecodable<T: JsonDeError<T> + View>() -> NodeErrorView {
    NodeErrorView {
        reason: "Failed to deserialize"@,
        source: Some(NodeErrorKindView::Json(T::expected())),
    }
}

/// Whether `cur` is a value that a read-modify-write may start from after
/// the read was answered with `reply`: the value that the answer decodes
/// to or, where the key is missing at the first read, a default value.
pub open spec fn starts_from<T: JsonDeError<T> + JsonSerError<T> + Default>(
    first: bool,
    reply: Result<Json, RpcError>,
    cur: T,
) -> bool {
    match reply {
        Ok(value) => <T as JsonDeError<T>>::decoded(value@) == Some(cur@),
        Err(RpcError::KeyNotFound) => first && call_ensures(T::default, (), cur),
        Err(_) => false,
    }
}

impl Node {
    /// Begins a read-modify-write of `key` at the service `svc`: the first
    /// step is a read. The caller waits under the ticket `slot`, hands the
    /// answer to [`fetch_and_read`], asks for the swap it returns with
    /// [`Node::kv_cas`], and hands that answer to [`fetch_and_swapped`],
    /// which says whether to read again.
    pub fn kv_fetch_and(&mut self, svc: &str, key: Json, slot: u64) -> (out: Message<KvRequest>)
        ensures
            final(self).sent_request(*old(self), out@, svc@, slot),
            out@.payload == (KvRequest::Read { key }),
    {
        self.kv_read(svc, key, slot)
    }
}

/// The step of a read-modify-write that follows a read. `reply` is the
/// answer to the read and `first` says whether it was the first read of
/// this read-modify-write.
///
/// The value read is decoded and `func` applied to it; where the key is
/// missing at the first read, `func` is applied to the default value. The
/// swap returned replaces what was read by the result. A key that is
/// missing at a later read, a value that does not decode, and any other
/// error of the service end the read-modify-write.
pub fn fetch_and_read<T, F>(first: bool, reply: Result<Json, RpcError>, func: F) -> (out: Result<
    Swap<T>,
    NodeError,
>) where T: JsonDeError<T> + JsonSerError<T> + Default, F: FnOnce(T) -> T
    requires
        forall|cur: T| starts_from(first, reply, cur) ==> call_requires(func, (cur,)),
    ensures
        match reply {
            Ok(value) => match <T as JsonDeError<T>>::decoded(value@) {
                Some(v) => {
                    &&& out matches Ok(swap)
                    &&& swap.from == value
                    &&& swap.to@ == <T as JsonSerError<T>>::encoded(swap.val@)
                    &&& exists|cur: T|
                        starts_from(first, reply, cur) && call_ensures(func, (cur,), swap.val)
                },
                None => out matches Err(e) && e@ == undecodable::<T>(),
            },
            Err(RpcError::KeyNotFound) => if first {
                &&& out matches Ok(swap)
                &&& swap.from == Json::Null
                &&& swap.to@ == <T as JsonSerError<T>>::encoded(swap.val@)
                &&& exists|cur: T|
                    starts_from(first, reply, cur) && call_ensures(func, (cur,), swap.val)
            } else {
                out matches Err(e) && e@ == lost_after_cas()
            },
            Err(e) => out matches Err(err) && err@ == unexpected(e),
        },
{
    match read_outcome(reply) {
        Err(e) => Err(e),
        Ok(None) => {
            if first {
                let cur = T::default();
                assert(starts_from(first, reply, cur));
                let val = func(cur);
                match val.ser_val() {
                    Ok(to) => Ok(Swap { val, from: Json::Null, to }),
                    Err(e) => Err(e),
                }
            } else {
                Err(NodeError::new("Failed to read after CAS"))
            }
        },
        Ok(Some(value)) => {
            match T::de(&value) {
                Err(e) => Err(e),
                Ok(cur) => {
                    assert(starts_from(first, reply, cur));
                    let val = func(cur);
                    match val.ser_val() {
                        Ok(to) => Ok(Swap { val, from: value, to }),
                        Err(e) => Err(e),
                    }
                },
            }
        },
    }
}

/// The step of a read-modify-write that follows a swap. `val` is the value
/// that the swap would store and `reply` the answer to it. Where the swap
/// took place the read-modify-write is done and `val` is its result; where
/// the stored value had changed in the meantime, the key is to be read
/// again.
pub fn fetch_and_swapped<T>(val: T, reply: Result<Json, RpcError>) -> (out: Result<
    Option<T>,
    NodeError,
>)
    ensures
        match reply {
            Ok(_) => out == Ok::<Option<T>, NodeError>(Some(val)),
            Err(RpcError::CasFailed(_)) => out == Ok::<Option<T>, NodeError>(None),
            Err(e) => out matches Err(err) && err@ == unexpected(e),
        },
{
    match cas_outcome(reply) {
        Ok(true) => Ok(Some(val)),
        Ok(false) => Ok(None),
        Err(e) => Err(e),
    }
}

} // verus!
