//! The replicated log: for each key, a log of messages with offsets, kept
//! as one value in `lin-kv` and changed by read-modify-write.

use crate::error::{
    JsonDeError, JsonSerError, NodeError, NodeErrorKind, NodeErrorKindView, NodeErrorView,
    RpcError,
};
use crate::json::{field_of, item_views, lemma_array_view, lemma_object_view, Json, JsonView};
use crate::message::Message;
use crate::node::Node;
use crate::service::{
    fetch_and_read, read_outcome, starts_from, undecodable, unexpected, KvRequest, Swap,
};
use vstd::prelude::*;
use vstd::string::*;

verus! {

/// The log of one key.
#[derive(Debug, Clone, PartialEq, Eq)]
pub struct KafkaState {
    /// The messages with their offsets, in the order they were appended.
    pub logs: Vec<(u64, u64)>,
    /// The offset given out last; zero before the first message.
    pub offset: u64,
    /// The highest offset that a client has committed.
    pub committed_offset: u64,
}

/// The mathematical value of a [`KafkaState`].
pub struct KafkaStateView {
    pub logs: Seq<(u64, u64)>,
    pub offset: u64,
    pub committed_offset: u64,
}

impl View for KafkaState {
    type V = KafkaStateView;

    open spec fn view(&self) -> KafkaStateView {
        KafkaStateView {
            logs: self.logs@,
            offset: self.offset,
            committed_offset: self.committed_offset,
        }
    }
}

impl KafkaStateView {
    /// The log of a key that nothing was sent to.
    pub open spec fn empty() -> KafkaStateView {
        KafkaStateView { logs: Seq::empty(), offset: 0, committed_offset: 0 }
    }

    /// The log after `msg` was appended: it gets the next offset.
    pub open spec fn append(self, msg: u64) -> KafkaStateView {
        KafkaStateView {
            logs: self.logs.push(((self.offset + 1) as u64, msg)),
            offset: (self.offset + 1) as u64,
            committed_offset: self.committed_offset,
        }
    }

    /// The messages at offset `from` and after, in the order of the log.
    pub open spec fn poll(self, from: u64) -> Seq<(u64, u64)> {
        self.logs.filter(|entry: (u64, u64)| entry.0 >= from)
    }

    /// The log after a client committed `requested`: the committed offset
    /// never goes back.
    pub open spec fn commit(self, requested: u64) -> KafkaStateView {
        KafkaStateView {
            logs: self.logs,
            offset: self.offset,
            committed_offset: if requested > self.committed_offset {
                requested
            } else {
                self.committed_offset
            },
        }
    }

    /// Whether the log is one that appending alone leads to: the `i`-th
    /// message has offset `i`, counted from 1, and the last offset is the
    /// number of messages.
    pub open spec fn dense(self) -> bool {
        &&& self.logs.len() == self.offset
        &&& forall|i: int| 0 <= i < self.logs.len() ==> (#[trigger] self.logs[i]).0 == i + 1
    }

    /// The log after the messages `msgs` were appended one after the other.
    pub open spec fn append_all(self, msgs: Seq<u64>) -> KafkaStateView
        decreases msgs.len(),
    {
        if msgs.len() == 0 {
            self
        } else {
            self.append_all(msgs.drop_last()).append(msgs.last())
        }
    }
}

impl Default for KafkaState {
    fn default() -> (state: KafkaState)
        ensures
            state@ == KafkaStateView::empty(),
    {
        KafkaState { logs: Vec::new(), offset: 0, committed_offset: 0 }
    }
}

impl KafkaState {
    /// Appends `msg` under the next offset and returns that offset.
    pub fn append(&mut self, msg: u64) -> (offset: u64)
        requires
            old(self).offset < u64::MAX,
        ensures
            final(self)@ == old(self)@.append(msg),
            offset == old(self).offset + 1,
    {
        let offset = self.offset + 1;
        self.logs.push((offset, msg));
        self.offset = offset;
        offset
    }

    /// The messages at offset `from` and after, in the order of the log.
    pub fn poll(&self, from: u64) -> (entries: Vec<(u64, u64)>)
        ensures
            entries@ == self@.poll(from),
    {
        let ghost pred = |entry: (u64, u64)| entry.0 >= from;
        let mut entries: Vec<(u64, u64)> = Vec::new();
        let mut i: usize = 0;
        proof {
            reveal(Seq::filter);
            assert(self.logs@.take(0) =~= Seq::<(u64, u64)>::empty());
        }
        while i < self.logs.len()
            invariant
                i <= self.logs.len(),
                pred == (|entry: (u64, u64)| entry.0 >= from),
                entries@ == self.logs@.take(i as int).filter(pred),
            decreases self.logs.len() - i,
        {
            let entry = self.logs[i];
            proof {
                reveal(Seq::filter);
                let next = self.logs@.take(i + 1);
                assert(next.drop_last() =~= self.logs@.take(i as int));
                assert(next.last() == entry);
            }
            if entry.0 >= from {
                entries.push(entry);
            }
            i += 1;
        }
        assert(self.logs@.take(self.logs.len() as int) =~= self.logs@);
        entries
    }

    /// Commits `requested`: the committed offset becomes the larger of the
    /// two.
    pub fn commit(&mut self, requested: u64)
        ensures
            final(self)@ == old(self)@.commit(requested),
    {
        if requested > self.committed_offset {
            self.committed_offset = requested;
        }
    }
}

/// The messages sent to a key get the offsets 1, 2, 3 and so on, in the
/// order they were appended, without gap or repeat: after `msgs` were
/// appended to the empty log, the `i`-th entry is the `i`-th message under
/// the offset `i`, counted from 1.
pub proof fn lemma_offsets_count_up(msgs: Seq<u64>)
    requires
        msgs.len() <= u64::MAX,
    ensures
        KafkaStateView::empty().append_all(msgs).dense(),
        KafkaStateView::empty().append_all(msgs).offset == msgs.len(),
        forall|i: int|
            0 <= i < msgs.len() ==> (#[trigger] KafkaStateView::empty().append_all(msgs).logs[i])
                == ((i + 1) as u64, msgs[i]),
    decreases msgs.len(),
{
    if msgs.len() > 0 {
        lemma_offsets_count_up(msgs.drop_last());
        let before = KafkaStateView::empty().append_all(msgs.drop_last());
        let after = KafkaStateView::empty().append_all(msgs);
        assert(after == before.append(msgs.last()));
        assert forall|i: int| 0 <= i < msgs.len() implies (#[trigger] after.logs[i]) == (
            (i + 1) as u64,
            msgs[i],
        ) by {
            if i < msgs.len() - 1 {
                assert(after.logs[i] == before.logs[i]);
                assert(msgs.drop_last()[i] == msgs[i]);
            }
        }
    }
}

/// Appending gives out an offset that was not given out before, and larger
/// than every one before it.
pub proof fn lemma_append_is_fresh(state: KafkaStateView, msg: u64)
    requires
        state.dense(),
        state.offset < u64::MAX,
    ensures
        state.append(msg).dense(),
        forall|i: int|
            0 <= i < state.logs.len() ==> (#[trigger] state.logs[i]).0 < state.append(msg).offset,
{
}

/// A poll returns every message at the offset asked for and after it, and
/// nothing else: an entry is in the answer exactly when it is in the log
/// with an offset that is not below `from`.
pub proof fn lemma_poll_complete(state: KafkaStateView, from: u64, entry: (u64, u64))
    ensures
        state.poll(from).contains(entry) <==> state.logs.contains(entry) && entry.0 >= from,
{
    let pred = |e: (u64, u64)| e.0 >= from;
    if state.poll(from).contains(entry) {
        let i = choose|i: int| 0 <= i < state.poll(from).len() && state.poll(from)[i] == entry;
        state.logs.lemma_filter_pred(pred, i);
        state.logs.lemma_filter_contains_rev(pred, entry);
    }
    if state.logs.contains(entry) && entry.0 >= from {
        let i = choose|i: int| 0 <= i < state.logs.len() && state.logs[i] == entry;
        state.logs.lemma_filter_contains(pred, i);
    }
}

/// Where the entries of `logs` carry the offsets 1, 2, 3 and so on, the
/// entries at offset `from` and after are the entries from place
/// `from - 1` on.
proof fn lemma_filter_counted(logs: Seq<(u64, u64)>, from: u64)
    requires
        forall|i: int| 0 <= i < logs.len() ==> (#[trigger] logs[i]).0 == i + 1,
    ensures
        logs.filter(|entry: (u64, u64)| entry.0 >= from) == logs.skip(first_place(logs.len(), from)),
    decreases logs.len(),
{
    reveal(Seq::filter);
    let pred = |entry: (u64, u64)| entry.0 >= from;
    if logs.len() == 0 {
        assert(logs.filter(pred) =~= logs.skip(0));
    } else {
        let front = logs.drop_last();
        assert forall|i: int| 0 <= i < front.len() implies (#[trigger] front[i]).0 == i + 1 by {
            assert(front[i] == logs[i]);
        }
        lemma_filter_counted(front, from);
        assert(logs.last() == logs[logs.len() - 1]);
        if logs.last().0 >= from {
            assert(front.skip(first_place(front.len(), from)).push(logs.last()) =~= logs.skip(
                first_place(logs.len(), from),
            ));
        } else {
            assert(front.skip(first_place(front.len(), from)) =~= logs.skip(
                first_place(logs.len(), from),
            ));
        }
    }
}

/// The place in a log of `len` messages of the first message at offset
/// `from` or after, where the offsets count up from 1.
pub open spec fn first_place(len: nat, from: u64) -> int {
    if from <= 1 {
        0
    } else if from - 1 >= len {
        len as int
    } else {
        from - 1
    }
}

/// In a log whose offsets count up from 1, a poll at offset `from` returns
/// the messages from that offset to the end of the log, in order and
/// without gap.
pub proof fn lemma_poll_counted(state: KafkaStateView, from: u64)
    requires
        state.dense(),
    ensures
        state.poll(from) == state.logs.skip(first_place(state.logs.len(), from)),
{
    lemma_filter_counted(state.logs, from);
}

/// The committed offset never goes back, and a commit of the same offset
/// twice changes nothing.
pub proof fn lemma_commit_monotonic(state: KafkaStateView, requested: u64)
    ensures
        state.commit(requested).committed_offset >= state.committed_offset,
        state.commit(requested).committed_offset >= requested,
        state.commit(requested).commit(requested) == state.commit(requested),
        state.commit(requested).logs == state.logs,
        state.commit(requested).offset == state.offset,
{
}

/// The log entry that a JSON value stands for: an array of an offset and a
/// message.
pub open spec fn entry_of(item: JsonView) -> Option<(u64, u64)> {
    match item {
        JsonView::Array(pair) => if pair.len() == 2 {
            match (pair[0], pair[1]) {
                (JsonView::UInt(offset), JsonView::UInt(msg)) => Some((offset, msg)),
                _ => None,
            }
        } else {
            None
        },
        _ => None,
    }
}

/// The JSON value that stands for a log entry.
pub open spec fn entry_json(entry: (u64, u64)) -> JsonView {
    JsonView::Array(seq![JsonView::UInt(entry.0), JsonView::UInt(entry.1)])
}

/// The log entries that a list of JSON values stands for, if every one of
/// them stands for an entry.
pub open spec fn entries_of(items: Seq<JsonView>) -> Option<Seq<(u64, u64)>> {
    if forall|i: int| 0 <= i < items.len() ==> entry_of(#[trigger] items[i]) is Some {
        Some(Seq::new(items.len(), |i: int| entry_of(items[i])->Some_0))
    } else {
        None
    }
}

/// The log that a JSON value stands for: an object with the fields `logs`,
/// `offset` and `committed_offset`. Other fields are passed over.
pub open spec fn state_of(src: JsonView) -> Option<KafkaStateView> {
    match src {
        JsonView::Object(fields) => match (
            field_of(fields, "logs"@),
            field_of(fields, "offset"@),
            field_of(fields, "committed_offset"@),
        ) {
            (
                Some(JsonView::Array(items)),
                Some(JsonView::UInt(offset)),
                Some(JsonView::UInt(committed_offset)),
            ) => match entries_of(items) {
                Some(logs) => Some(KafkaStateView { logs, offset, committed_offset }),
                None => None,
            },
            _ => None,
        },
        _ => None,
    }
}

/// The JSON value that stands for a log.
pub open spec fn state_json(state: KafkaStateView) -> JsonView {
    JsonView::Object(
        seq![
            ("committed_offset"@, JsonView::UInt(state.committed_offset)),
            (
                "logs"@,
                JsonView::Array(
                    Seq::new(state.logs.len(), |i: int| entry_json(state.logs[i])),
                ),
            ),
            ("offset"@, JsonView::UInt(state.offset)),
        ],
    )
}

fn state_error() -> (e: NodeError)
    ensures
        e@ == (NodeErrorView {
            reason: "Failed to deserialize"@,
            source: Some(NodeErrorKindView::Json("expected the log of a key"@)),
        }),
{
    NodeError::new_with(
        "Failed to deserialize",
        NodeErrorKind::Json(String::from_str("expected the log of a key")),
    )
}

/// Reads one log entry.
fn read_entry(item: &Json) -> (r: Option<(u64, u64)>)
    ensures
        r == entry_of(item@),
{
    match item.as_array() {
        None => None,
        Some(pair) => {
            if pair.len() != 2 {
                return None;
            }
            match (pair[0].as_u64(), pair[1].as_u64()) {
                (Some(offset), Some(msg)) => Some((offset, msg)),
                _ => None,
            }
        },
    }
}

/// Reads the entries of a log.
fn read_entries(items: &Vec<Json>) -> (r: Option<Vec<(u64, u64)>>)
    ensures
        match entries_of(item_views(items@)) {
            Some(logs) => r matches Some(out) && out@ == logs,
            None => r is None,
        },
{
    let ghost views = item_views(items@);
    let mut out: Vec<(u64, u64)> = Vec::new();
    let mut i: usize = 0;
    while i < items.len()
        invariant
            i <= items.len(),
            views == item_views(items@),
            out.len() == i,
            forall|j: int| 0 <= j < i ==> entry_of(#[trigger] views[j]) == Some(out[j]),
        decreases items.len() - i,
    {
        match read_entry(&items[i]) {
            None => {
                assert(entry_of(views[i as int]) is None);
                return None;
            },
            Some(entry) => {
                out.push(entry);
            },
        }
        i += 1;
    }
    assert(out@ =~= entries_of(views)->Some_0);
    Some(out)
}

impl JsonDeError<KafkaState> for KafkaState {
    open spec fn decoded(src: JsonView) -> Option<KafkaStateView> {
        state_of(src)
    }

    open spec fn expected() -> Seq<char> {
        "expected the log of a key"@
    }

    fn de(src: &Json) -> (r: Result<KafkaState, NodeError>) {
        let logs = match src.field("logs") {
            None => {
                return Err(state_error());
            },
            Some(value) => match value.as_array() {
                None => {
                    return Err(state_error());
                },
                Some(items) => match read_entries(items) {
                    None => {
                        return Err(state_error());
                    },
                    Some(logs) => logs,
                },
            },
        };
        let offset = match src.field("offset") {
            None => {
                return Err(state_error());
            },
            Some(value) => match value.as_u64() {
                None => {
                    return Err(state_error());
                },
                Some(offset) => offset,
            },
        };
        let committed_offset = match src.field("committed_offset") {
            None => {
                return Err(state_error());
            },
            Some(value) => match value.as_u64() {
                None => {
                    return Err(state_error());
                },
                Some(committed_offset) => committed_offset,
            },
        };
        Ok(KafkaState { logs, offset, committed_offset })
    }
}

/// Writes one log entry.
fn write_entry(entry: (u64, u64)) -> (item: Json)
    ensures
        item@ == entry_json(entry),
{
    let mut pair: Vec<Json> = Vec::new();
    pair.push(Json::UInt(entry.0));
    pair.push(Json::UInt(entry.1));
    proof {
        lemma_array_view(pair);
        assert(item_views(pair@) =~= seq![JsonView::UInt(entry.0), JsonView::UInt(entry.1)]);
    }
    Json::Array(pair)
}

impl JsonSerError<KafkaState> for KafkaState {
    open spec fn encoded(state: KafkaStateView) -> JsonView {
        state_json(state)
    }

    fn ser_val(&self) -> (r: Result<Json, NodeError>) {
        let mut items: Vec<Json> = Vec::new();
        let mut i: usize = 0;
        while i < self.logs.len()
            invariant
                i <= self.logs.len(),
                items.len() == i,
                forall|j: int| 0 <= j < i ==> (#[trigger] items[j])@ == entry_json(self.logs[j]),
            decreases self.logs.len() - i,
        {
            items.push(write_entry(self.logs[i]));
            i += 1;
        }
        let mut fields: Vec<(String, Json)> = Vec::new();
        proof {
            lemma_array_view(items);
            assert(item_views(items@) =~= Seq::new(
                self.logs@.len(),
                |i: int| entry_json(self.logs@[i]),
            ));
        }
        fields.push((String::from_str("committed_offset"), Json::UInt(self.committed_offset)));
        fields.push((String::from_str("logs"), Json::Array(items)));
        fields.push((String::from_str("offset"), Json::UInt(self.offset)));
        proof {
            lemma_object_view(fields);
            assert(crate::json::field_views(fields@) =~= state_json(self@)->Object_0);
        }
        Ok(Json::Object(fields))
    }
}

/// A log written as JSON and read back is the same log.
pub proof fn lemma_state_round_trip(state: KafkaStateView)
    ensures
        state_of(state_json(state)) == Some(state),
{
    reveal_strlit("logs");
    reveal_strlit("offset");
    reveal_strlit("committed_offset");
    let fields = state_json(state)->Object_0;
    let rest1 = fields.drop_first();
    let rest2 = rest1.drop_first();
    assert(fields[0].0 == "committed_offset"@);
    assert(rest1[0] == fields[1]);
    assert(rest2[0] == fields[2]);
    assert("logs"@.len() == 4);
    assert("offset"@.len() == 6);
    assert("committed_offset"@.len() == 16);
    assert(field_of(fields, "committed_offset"@) == Some(fields[0].1));
    assert(field_of(rest1, "logs"@) == Some(fields[1].1));
    assert(field_of(fields, "logs"@) == Some(fields[1].1));
    assert(field_of(rest2, "offset"@) == Some(fields[2].1));
    assert(field_of(rest1, "offset"@) == Some(fields[2].1));
    assert(field_of(fields, "offset"@) == Some(fields[2].1));
    let items = Seq::new(state.logs.len(), |i: int| entry_json(state.logs[i]));
    assert forall|i: int| 0 <= i < items.len() implies entry_of(#[trigger] items[i]) == Some(
        state.logs[i],
    ) by {
        let pair = seq![JsonView::UInt(state.logs[i].0), JsonView::UInt(state.logs[i].1)];
        assert(pair.len() == 2);
        assert(pair[0] == JsonView::UInt(state.logs[i].0));
        assert(pair[1] == JsonView::UInt(state.logs[i].1));
    }
    assert(entries_of(items)->Some_0 =~= state.logs);
}

/// What clients ask of the log.
#[derive(Debug, Clone, PartialEq, Eq)]
pub enum Request {
    Send { key: String, msg: u64 },
    /// For each key, listed once, the offset to read from.
    Poll { offsets: Vec<(String, u64)> },
    /// For each key, listed once, the offset to commit.
    CommitOffsets { offsets: Vec<(String, u64)> },
    ListCommittedOffsets { keys: Vec<String> },
}

/// What the log answers.
#[derive(Debug, Clone, PartialEq, Eq)]
pub enum Response {
    SendOk { offset: u64 },
    /// For each key that has a log, its messages from the offset asked for.
    PollOk { msgs: Vec<(String, Vec<(u64, u64)>)> },
    CommitOffsetsOk,
    /// For each key that has a log, its committed offset.
    ListCommittedOffsetsOk { offsets: Vec<(String, u64)> },
}

/// The log that a read-modify-write starts from after the read was
/// answered with `reply`: the log stored or, where the key is missing at
/// the first read, the empty log. Any other answer gives none.
pub open spec fn start_state(first: bool, reply: Result<Json, RpcError>) -> Option<
    KafkaStateView,
> {
    match reply {
        Ok(value) => state_of(value@),
        Err(RpcError::KeyNotFound) => if first {
            Some(KafkaStateView::empty())
        } else {
            None
        },
        Err(_) => None,
    }
}

/// The error that ends a read-modify-write whose read gave no log to start
/// from.
pub open spec fn start_error(first: bool, reply: Result<Json, RpcError>) -> NodeErrorView {
    match reply {
        Ok(_) => undecodable::<KafkaState>(),
        Err(RpcError::KeyNotFound) => crate::service::lost_after_cas(),
        Err(e) => unexpected(e),
    }
}

/// What was read, as the swap names it: the value, or `null` where the key
/// was missing.
pub open spec fn read_value(reply: Result<Json, RpcError>) -> Json {
    match reply {
        Ok(value) => value,
        Err(_) => Json::Null,
    }
}

proof fn lemma_start(first: bool, reply: Result<Json, RpcError>, cur: KafkaState)
    requires
        starts_from(first, reply, cur),
    ensures
        start_state(first, reply) == Some(cur@),
{
}

/// Asks `lin-kv` for the log of `key`. The caller waits for the answer
/// under the ticket `slot`.
pub fn read_log(node: &mut Node, key: &String, slot: u64) -> (out: Message<KvRequest>)
    ensures
        final(node).sent_request(*old(node), out@, "lin-kv"@, slot),
        out@.payload matches KvRequest::Read { key: Json::Str(name) } && name@ == key@,
{
    node.kv_fetch_and("lin-kv", Json::Str(key.clone()), slot)
}

/// Asks `lin-kv` to replace the log of `key` that was read by the new one.
/// The caller waits for the answer under the ticket `slot`.
pub fn swap_log(node: &mut Node, key: &String, from: Json, to: Json, slot: u64) -> (out: Message<
    KvRequest,
>)
    ensures
        final(node).sent_request(*old(node), out@, "lin-kv"@, slot),
        out@.payload matches KvRequest::Cas {
            key: Json::Str(name),
            from: old_value,
            to: new_value,
            create_if_not_exists,
        } && name@ == key@ && old_value == from && new_value == to && create_if_not_exists
            == Some(true),
{
    node.kv_cas("lin-kv", Json::Str(key.clone()), from, to, slot)
}

/// First step of `send`: asks `lin-kv` for the log of `key`.
pub fn handle_send(node: &mut Node, key: &String, slot: u64) -> (out: Message<KvRequest>)
    ensures
        final(node).sent_request(*old(node), out@, "lin-kv"@, slot),
        out@.payload matches KvRequest::Read { key: Json::Str(name) } && name@ == key@,
{
    read_log(node, key, slot)
}

/// The step of `send` that follows a read: `msg` is appended to the log
/// that was read, and the swap returned stores the result. `first` says
/// whether this was the first read of this `send`.
pub fn send_attempt(msg: u64, first: bool, reply: Result<Json, RpcError>) -> (out: Result<
    Swap<KafkaState>,
    NodeError,
>)
    requires
        start_state(first, reply) matches Some(state) ==> state.offset < u64::MAX,
    ensures
        match start_state(first, reply) {
            Some(state) => {
                &&& out matches Ok(swap)
                &&& swap.val@ == state.append(msg)
                &&& swap.from == read_value(reply)
                &&& swap.to@ == state_json(swap.val@)
            },
            None => out matches Err(e) && e@ == start_error(first, reply),
        },
{
    let append = |state: KafkaState| -> (next: KafkaState)
        requires
            state.offset < u64::MAX,
        ensures
            next@ == state@.append(msg),
        {
            let mut next = state;
            next.append(msg);
            next
        };
    assert forall|cur: KafkaState| starts_from(first, reply, cur) implies call_requires(
        append,
        (cur,),
    ) by {
        lemma_start(first, reply, cur);
    }
    let out = fetch_and_read(first, reply, append);
    proof {
        if out is Ok {
            let val = out->Ok_0.val;
            let cur = choose|cur: KafkaState|
                starts_from(first, reply, cur) && call_ensures(append, (cur,), val);
            lemma_start(first, reply, cur);
        }
    }
    out
}

/// Last step of `send`: the swap went through and stored `state`. The
/// client is answered with the offset that the message got.
pub fn send_done<T>(node: &mut Node, msg: &Message<T>, state: &KafkaState) -> (out: Message<
    Response,
>)
    ensures
        final(node).sent_reply(*old(node), out@, msg@),
        out@.payload == (Response::SendOk { offset: state.offset }),
{
    node.reply(msg, Response::SendOk { offset: state.offset })
}

/// The step of `poll` and of `list_committed_offsets` that reads the log
/// of the `next` key, or nothing when every key was read.
pub fn handle_list_committed(node: &mut Node, keys: &Vec<String>, next: usize, slot: u64) -> (out:
    Option<Message<KvRequest>>)
    ensures
        next >= keys.len() ==> out is None && final(node).same_as(*old(node)),
        next < keys.len() ==> {
            &&& out matches Some(m)
            &&& final(node).sent_request(*old(node), m@, "lin-kv"@, slot)
            &&& m@.payload matches KvRequest::Read { key: Json::Str(name) }
            &&& name@ == keys[next as int]@
        },
{
    if next < keys.len() {
        Some(read_log(node, &keys[next], slot))
    } else {
        None
    }
}

/// The step of `poll` that reads the log of the `next` key, or nothing
/// when every key was read.
pub fn handle_poll(node: &mut Node, offsets: &Vec<(String, u64)>, next: usize, slot: u64) -> (out:
    Option<Message<KvRequest>>)
    ensures
        next >= offsets.len() ==> out is None && final(node).same_as(*old(node)),
        next < offsets.len() ==> {
            &&& out matches Some(m)
            &&& final(node).sent_request(*old(node), m@, "lin-kv"@, slot)
            &&& m@.payload matches KvRequest::Read { key: Json::Str(name) }
            &&& name@ == offsets[next as int].0@
        },
{
    if next < offsets.len() {
        Some(read_log(node, &offsets[next].0, slot))
    } else {
        None
    }
}

/// The step of `commit_offsets` that reads the log of the `next` key, or
/// nothing when every key was committed.
pub fn handle_commit(node: &mut Node, offsets: &Vec<(String, u64)>, next: usize, slot: u64) -> (out:
    Option<Message<KvRequest>>)
    ensures
        next >= offsets.len() ==> out is None && final(node).same_as(*old(node)),
        next < offsets.len() ==> {
            &&& out matches Some(m)
            &&& final(node).sent_request(*old(node), m@, "lin-kv"@, slot)
            &&& m@.payload matches KvRequest::Read { key: Json::Str(name) }
            &&& name@ == offsets[next as int].0@
        },
{
    handle_poll(node, offsets, next, slot)
}

/// The log that the answer to a read holds, if the key has one.
pub open spec fn stored_state(reply: Result<Json, RpcError>) -> Option<Option<KafkaStateView>> {
    match reply {
        Ok(value) => match state_of(value@) {
            Some(state) => Some(Some(state)),
            None => None,
        },
        Err(RpcError::KeyNotFound) => Some(None),
        Err(_) => None,
    }
}

/// The error for an answer to a read that holds no log and does not say
/// that the key is missing.
pub open spec fn stored_error(reply: Result<Json, RpcError>) -> NodeErrorView {
    match reply {
        Ok(_) => undecodable::<KafkaState>(),
        Err(e) => unexpected(e),
    }
}

/// Reads the log out of the answer to a read; none where the key is
/// missing.
pub fn stored_log(reply: Result<Json, RpcError>) -> (out: Result<Option<KafkaState>, NodeError>)
    ensures
        match stored_state(reply) {
            Some(Some(state)) => out matches Ok(Some(found)) && found@ == state,
            Some(None) => out matches Ok(None),
            None => out matches Err(e) && e@ == stored_error(reply),
        },
{
    match read_outcome(reply) {
        Err(e) => Err(e),
        Ok(None) => Ok(None),
        Ok(Some(value)) => match KafkaState::de(&value) {
            Err(e) => Err(e),
            Ok(state) => Ok(Some(state)),
        },
    }
}

/// The step of `poll` that follows a read of the log of `key`: the
/// messages from the offset `from` on are added to the answer. A key
/// without a log adds nothing.
pub fn poll_add(
    msgs: &mut Vec<(String, Vec<(u64, u64)>)>,
    key: &String,
    from: u64,
    reply: Result<Json, RpcError>,
) -> (out: Result<(), NodeError>)
    ensures
        match stored_state(reply) {
            Some(Some(state)) => {
                &&& out is Ok
                &&& final(msgs)@.len() == old(msgs)@.len() + 1
                &&& final(msgs)@.drop_last() == old(msgs)@
                &&& final(msgs)@.last().0@ == key@
                &&& final(msgs)@.last().1@ == state.poll(from)
            },
            Some(None) => out is Ok && *final(msgs) == *old(msgs),
            None => out matches Err(e) && e@ == stored_error(reply) && *final(msgs) == *old(
                msgs,
            ),
        },
{
    match stored_log(reply) {
        Err(e) => Err(e),
        Ok(None) => Ok(()),
        Ok(Some(state)) => {
            let entries = state.poll(from);
            msgs.push((key.clone(), entries));
            assert(msgs@.drop_last() =~= old(msgs)@);
            Ok(())
        },
    }
}

/// Last step of `poll`: answers the client with the messages gathered.
pub fn poll_done<T>(node: &mut Node, msg: &Message<T>, msgs: Vec<(String, Vec<(u64, u64)>)>) -> (out:
    Message<Response>)
    ensures
        final(node).sent_reply(*old(node), out@, msg@),
        out@.payload == (Response::PollOk { msgs }),
{
    node.reply(msg, Response::PollOk { msgs })
}

/// The step of `commit_offsets` that follows a read: the committed offset
/// of the log that was read is raised to `requested`, unless it is there
/// already, and the swap returned stores the result. `first` says whether
/// this was the first read for this key.
pub fn commit_attempt(requested: u64, first: bool, reply: Result<Json, RpcError>) -> (out: Result<
    Swap<KafkaState>,
    NodeError,
>)
    ensures
        match start_state(first, reply) {
            Some(state) => {
                &&& out matches Ok(swap)
                &&& swap.val@ == state.commit(requested)
                &&& swap.from == read_value(reply)
                &&& swap.to@ == state_json(swap.val@)
            },
            None => out matches Err(e) && e@ == start_error(first, reply),
        },
{
    let commit = |state: KafkaState| -> (next: KafkaState)
        ensures
            next@ == state@.commit(requested),
        {
            let mut next = state;
            next.commit(requested);
            next
        };
    let out = fetch_and_read(first, reply, commit);
    proof {
        if out is Ok {
            let val = out->Ok_0.val;
            let cur = choose|cur: KafkaState|
                starts_from(first, reply, cur) && call_ensures(commit, (cur,), val);
            lemma_start(first, reply, cur);
        }
    }
    out
}

/// Last step of `commit_offsets`: answers the client.
pub fn commit_done<T>(node: &mut Node, msg: &Message<T>) -> (out: Message<Response>)
    ensures
        final(node).sent_reply(*old(node), out@, msg@),
        out@.payload == Response::CommitOffsetsOk,
{
    node.reply(msg, Response::CommitOffsetsOk)
}

/// The step of `list_committed_offsets` that follows a read of the log of
/// `key`: its committed offset is added to the answer. A key without a log
/// adds nothing.
pub fn list_add(offsets: &mut Vec<(String, u64)>, key: &String, reply: Result<Json, RpcError>) -> (out:
    Result<(), NodeError>)
    ensures
        match stored_state(reply) {
            Some(Some(state)) => {
                &&& out is Ok
                &&& final(offsets)@.len() == old(offsets)@.len() + 1
                &&& final(offsets)@.drop_last() == old(offsets)@
                &&& final(offsets)@.last().0@ == key@
                &&& final(offsets)@.last().1 == state.committed_offset
            },
            Some(None) => out is Ok && *final(offsets) == *old(offsets),
            None => out matches Err(e) && e@ == stored_error(reply) && *final(offsets) == *old(
                offsets,
            ),
        },
{
    match stored_log(reply) {
        Err(e) => Err(e),
        Ok(None) => Ok(()),
        Ok(Some(state)) => {
            offsets.push((key.clone(), state.committed_offset));
            assert(offsets@.drop_last() =~= old(offsets)@);
            Ok(())
        },
    }
}

/// Last step of `list_committed_offsets`: answers the client with the
/// offsets gathered.
pub fn list_done<T>(node: &mut Node, msg: &Message<T>, offsets: Vec<(String, u64)>) -> (out:
    Message<Response>)
    ensures
        final(node).sent_reply(*old(node), out@, msg@),
        out@.payload == (Response::ListCommittedOffsetsOk { offsets }),
{
    node.reply(msg, Response::ListCommittedOffsetsOk { offsets })
}

/// Dispatches a request of a client: the first read of the log that the
/// request is about, or nothing where it names no key. The caller waits
/// for the answer of `lin-kv` under the ticket `slot`.
pub fn handle_msg(request: &Request, node: &mut Node, slot: u64) -> (out: Option<
    Message<KvRequest>,
>)
    ensures
        match request {
            Request::Send { key, .. } => {
                &&& out matches Some(m)
                &&& final(node).sent_request(*old(node), m@, "lin-kv"@, slot)
                &&& m@.payload matches KvRequest::Read { key: Json::Str(name) }
                &&& name@ == key@
            },
            Request::Poll { offsets } | Request::CommitOffsets { offsets } => if offsets.len()
                == 0 {
                out is None && final(node).same_as(*old(node))
            } else {
                &&& out matches Some(m)
                &&& final(node).sent_request(*old(node), m@, "lin-kv"@, slot)
                &&& m@.payload matches KvRequest::Read { key: Json::Str(name) }
                &&& name@ == offsets[0].0@
            },
            Request::ListCommittedOffsets { keys } => if keys.len() == 0 {
                out is None && final(node).same_as(*old(node))
            } else {
                &&& out matches Some(m)
                &&& final(node).sent_request(*old(node), m@, "lin-kv"@, slot)
                &&& m@.payload matches KvRequest::Read { key: Json::Str(name) }
                &&& name@ == keys[0]@
            },
        },
{
    match request {
        Request::Send { key, .. } => Some(handle_send(node, key, slot)),
        Request::Poll { offsets } => handle_poll(node, offsets, 0, slot),
        Request::CommitOffsets { offsets } => handle_commit(node, offsets, 0, slot),
        Request::ListCommittedOffsets { keys } => handle_list_committed(node, keys, 0, slot),
    }
}

} // verus!
