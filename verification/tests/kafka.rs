use std::collections::HashMap;
use vortex::error::{JsonDeError, JsonSerError, NodeError, NodeErrorKind, RpcError};
use vortex::json::Json;
use vortex::kafka::{
    commit_attempt, commit_done, handle_commit, handle_list_committed, handle_msg,
    handle_poll, handle_send, list_add, list_done, poll_add, poll_done, read_log, send_attempt,
    send_done, stored_log, swap_log, KafkaState, Request, Response,
};
use vortex::message::{Body, Init, Message};
use vortex::node::Node;
use vortex::service::{fetch_and_swapped, from_kv, KvRequest, KvResponse, Swap};

fn node(id: &str) -> Node {
    Node::new(Message {
        src: "c0".to_string(),
        dst: id.to_string(),
        body: Body {
            msg_id: Some(1),
            in_reply_to: None,
            payload: Init { node_id: id.to_string(), node_ids: vec![id.to_string()] },
        },
    })
    .0
}

fn client(msg_id: u32) -> Message<()> {
    Message {
        src: "c1".to_string(),
        dst: "n1".to_string(),
        body: Body { msg_id: Some(msg_id), in_reply_to: None, payload: () },
    }
}

/// A key-value service that answers at once.
fn serve(store: &mut HashMap<String, Json>, request: &Message<KvRequest>) -> KvResponse {
    fn name(key: &Json) -> String {
        match key {
            Json::Str(s) => s.clone(),
            other => panic!("unexpected key {:?}", other),
        }
    }
    match &request.body.payload {
        KvRequest::Read { key } => match store.get(&name(key)) {
            Some(value) => KvResponse::ReadOk { value: value.clone() },
            None => KvResponse::Error { code: 20, text: "key does not exist".to_string() },
        },
        KvRequest::Write { key, value } => {
            store.insert(name(key), value.clone());
            KvResponse::WriteOk
        }
        KvRequest::Cas { key, from, to, create_if_not_exists } => {
            let key = name(key);
            match store.get(&key) {
                None if *create_if_not_exists == Some(true) => {
                    store.insert(key, to.clone());
                    KvResponse::CasOk
                }
                None => KvResponse::Error { code: 20, text: "key does not exist".to_string() },
                Some(current) if current == from => {
                    store.insert(key, to.clone());
                    KvResponse::CasOk
                }
                Some(_) => KvResponse::Error { code: 22, text: "value has changed".to_string() },
            }
        }
    }
}

fn call(
    node: &mut Node,
    store: &mut HashMap<String, Json>,
    request: Message<KvRequest>,
    slot: u64,
) -> Result<Json, RpcError> {
    assert_eq!(request.dst, "lin-kv");
    let response = serve(store, &request);
    let reply = Message {
        src: "lin-kv".to_string(),
        dst: node.id.clone(),
        body: Body { msg_id: Some(0), in_reply_to: request.body.msg_id, payload: response },
    };
    assert!(from_kv(&reply.src));
    let delivery = node.handle_kv(reply).unwrap().unwrap();
    assert_eq!(delivery.slot, slot);
    delivery.result
}

fn send(node: &mut Node, store: &mut HashMap<String, Json>, key: &str, msg: u64) -> Response {
    let key = key.to_string();
    let mut first = true;
    let mut read = handle_msg(&Request::Send { key: key.clone(), msg }, node, 1).unwrap();
    loop {
        let got = call(node, store, read, 1);
        let Swap { val, from, to } = send_attempt(msg, first, got).unwrap();
        let swap = swap_log(node, &key, from, to, 2);
        let swapped = call(node, store, swap, 2);
        match fetch_and_swapped(val, swapped).unwrap() {
            Some(state) => return send_done(node, &client(5), &state).body.payload,
            None => {
                first = false;
                read = handle_send(node, &key, 1);
            }
        }
    }
}

fn poll(node: &mut Node, store: &mut HashMap<String, Json>, offsets: &[(&str, u64)]) -> Response {
    let offsets: Vec<(String, u64)> = offsets.iter().map(|(k, o)| (k.to_string(), *o)).collect();
    let mut msgs = Vec::new();
    let mut next = 0;
    while let Some(read) = handle_poll(node, &offsets, next, 1) {
        let got = call(node, store, read, 1);
        poll_add(&mut msgs, &offsets[next].0, offsets[next].1, got).unwrap();
        next += 1;
    }
    poll_done(node, &client(6), msgs).body.payload
}

fn commit(node: &mut Node, store: &mut HashMap<String, Json>, offsets: &[(&str, u64)]) -> Response {
    let offsets: Vec<(String, u64)> = offsets.iter().map(|(k, o)| (k.to_string(), *o)).collect();
    let mut next = 0;
    while let Some(mut read) = handle_commit(node, &offsets, next, 1) {
        let mut first = true;
        loop {
            let got = call(node, store, read, 1);
            let Swap { val, from, to } = commit_attempt(offsets[next].1, first, got).unwrap();
            let swap = swap_log(node, &offsets[next].0, from, to, 2);
            let swapped = call(node, store, swap, 2);
            if fetch_and_swapped(val, swapped).unwrap().is_some() {
                break;
            }
            first = false;
            read = read_log(node, &offsets[next].0, 1);
        }
        next += 1;
    }
    commit_done(node, &client(7)).body.payload
}

fn list(node: &mut Node, store: &mut HashMap<String, Json>, keys: &[&str]) -> Response {
    let keys: Vec<String> = keys.iter().map(|k| k.to_string()).collect();
    let mut offsets = Vec::new();
    let mut next = 0;
    while let Some(read) = handle_list_committed(node, &keys, next, 1) {
        let got = call(node, store, read, 1);
        list_add(&mut offsets, &keys[next], got).unwrap();
        next += 1;
    }
    list_done(node, &client(8), offsets).body.payload
}

fn state_json(logs: &[(u64, u64)], offset: u64, committed: u64) -> Json {
    Json::Object(vec![
        ("committed_offset".to_string(), Json::UInt(committed)),
        (
            "logs".to_string(),
            Json::Array(
                logs.iter()
                    .map(|(o, m)| Json::Array(vec![Json::UInt(*o), Json::UInt(*m)]))
                    .collect(),
            ),
        ),
        ("offset".to_string(), Json::UInt(offset)),
    ])
}

fn undecodable() -> NodeError {
    NodeError {
        reason: "Failed to deserialize".to_string(),
        source: Some(NodeErrorKind::Json("expected the log of a key".to_string())),
    }
}

#[test]
fn kafka_send_poll_commit() {
    let mut store = HashMap::new();
    let mut n = node("n1");
    assert_eq!(send(&mut n, &mut store, "k", 100), Response::SendOk { offset: 1 });
    assert_eq!(send(&mut n, &mut store, "k", 101), Response::SendOk { offset: 2 });
    assert_eq!(
        poll(&mut n, &mut store, &[("k", 1)]),
        Response::PollOk { msgs: vec![("k".to_string(), vec![(1, 100), (2, 101)])] }
    );
    assert_eq!(commit(&mut n, &mut store, &[("k", 2)]), Response::CommitOffsetsOk);
    assert_eq!(
        list(&mut n, &mut store, &["k"]),
        Response::ListCommittedOffsetsOk { offsets: vec![("k".to_string(), 2)] }
    );
}

#[test]
fn offsets_count_up_per_key_without_gaps() {
    let mut store = HashMap::new();
    let mut n1 = node("n1");
    let mut n2 = node("n2");
    for i in 1..=20u64 {
        let n = if i % 3 == 0 { &mut n1 } else { &mut n2 };
        assert_eq!(send(n, &mut store, "a", 1000 + i), Response::SendOk { offset: i });
        if i % 2 == 0 {
            assert_eq!(send(n, &mut store, "b", i), Response::SendOk { offset: i / 2 });
        }
    }
    assert_eq!(
        poll(&mut n1, &mut store, &[("a", 19), ("b", 11), ("c", 0)]),
        Response::PollOk {
            msgs: vec![("a".to_string(), vec![(19, 1019), (20, 1020)]), ("b".to_string(), vec![])],
        }
    );
}

#[test]
fn a_failed_swap_is_followed_by_a_new_read() {
    let mut store = HashMap::new();
    let mut n1 = node("n1");
    let mut n2 = node("n2");
    let key = "k".to_string();
    let read = handle_send(&mut n1, &key, 1);
    let got = call(&mut n1, &mut store, read, 1);
    let Swap { val, from, to } = send_attempt(100, true, got).unwrap();
    assert_eq!(val.offset, 1);
    assert_eq!(from, Json::Null);
    assert_eq!(send(&mut n2, &mut store, "k", 200), Response::SendOk { offset: 1 });
    let swap = swap_log(&mut n1, &key, from, to, 2);
    let swapped = call(&mut n1, &mut store, swap, 2);
    assert_eq!(swapped, Err(RpcError::CasFailed("value has changed".to_string())));
    assert_eq!(fetch_and_swapped(val, swapped), Ok(None));
    let read = handle_send(&mut n1, &key, 1);
    let got = call(&mut n1, &mut store, read, 1);
    let Swap { val, from, to } = send_attempt(100, false, got).unwrap();
    assert_eq!(val.offset, 2);
    assert_eq!(from, state_json(&[(1, 200)], 1, 0));
    let swap = swap_log(&mut n1, &key, from, to, 2);
    let swapped = call(&mut n1, &mut store, swap, 2);
    let state = fetch_and_swapped(val, swapped).unwrap().unwrap();
    assert_eq!(send_done(&mut n1, &client(5), &state).body.payload, Response::SendOk { offset: 2 });
    assert_eq!(
        poll(&mut n2, &mut store, &[("k", 0)]),
        Response::PollOk { msgs: vec![("k".to_string(), vec![(1, 200), (2, 100)])] }
    );
}

#[test]
fn commits_never_go_back() {
    let mut store = HashMap::new();
    let mut n = node("n1");
    send(&mut n, &mut store, "k", 1);
    commit(&mut n, &mut store, &[("k", 5)]);
    commit(&mut n, &mut store, &[("k", 3)]);
    assert_eq!(
        list(&mut n, &mut store, &["k"]),
        Response::ListCommittedOffsetsOk { offsets: vec![("k".to_string(), 5)] }
    );
    commit(&mut n, &mut store, &[("k", 6), ("j", 2)]);
    assert_eq!(
        list(&mut n, &mut store, &["j", "k", "missing"]),
        Response::ListCommittedOffsetsOk {
            offsets: vec![("j".to_string(), 2), ("k".to_string(), 6)],
        }
    );
}

#[test]
fn requests_without_keys_need_no_read() {
    let mut n = node("n1");
    assert_eq!(handle_msg(&Request::Poll { offsets: vec![] }, &mut n, 1), None);
    assert_eq!(handle_msg(&Request::CommitOffsets { offsets: vec![] }, &mut n, 1), None);
    assert_eq!(handle_msg(&Request::ListCommittedOffsets { keys: vec![] }, &mut n, 1), None);
    assert_eq!(n.msg_id, 1);
    assert_eq!(poll_done(&mut n, &client(1), vec![]).body.payload, Response::PollOk { msgs: vec![] });
}

#[test]
fn the_first_request_of_each_kind_reads_the_first_key() {
    let mut n = node("n1");
    let expected = |msg_id: u32, key: &str| Message {
        src: "n1".to_string(),
        dst: "lin-kv".to_string(),
        body: Body {
            msg_id: Some(msg_id),
            in_reply_to: None,
            payload: KvRequest::Read { key: Json::Str(key.to_string()) },
        },
    };
    let offsets = vec![("x".to_string(), 1), ("y".to_string(), 2)];
    assert_eq!(
        handle_msg(&Request::Poll { offsets: offsets.clone() }, &mut n, 1),
        Some(expected(1, "x"))
    );
    assert_eq!(
        handle_msg(&Request::CommitOffsets { offsets: offsets.clone() }, &mut n, 1),
        Some(expected(2, "x"))
    );
    assert_eq!(
        handle_msg(&Request::ListCommittedOffsets { keys: vec!["z".to_string()] }, &mut n, 1),
        Some(expected(3, "z"))
    );
    assert_eq!(handle_poll(&mut n, &offsets, 1, 1), Some(expected(4, "y")));
    assert_eq!(handle_poll(&mut n, &offsets, 2, 1), None);
    assert_eq!(handle_commit(&mut n, &offsets, 5, 1), None);
}

#[test]
fn swap_log_asks_for_a_compare_and_swap() {
    let mut n = node("n1");
    let out = swap_log(&mut n, &"k".to_string(), Json::Null, Json::UInt(1), 4);
    assert_eq!(
        out.body.payload,
        KvRequest::Cas {
            key: Json::Str("k".to_string()),
            from: Json::Null,
            to: Json::UInt(1),
            create_if_not_exists: Some(true),
        }
    );
    assert_eq!(out.dst, "lin-kv");
}

#[test]
fn state_operations() {
    let mut state = KafkaState::default();
    assert_eq!(state, KafkaState { logs: vec![], offset: 0, committed_offset: 0 });
    assert_eq!(state.append(7), 1);
    assert_eq!(state.append(8), 2);
    assert_eq!(state.append(9), 3);
    assert_eq!(state.logs, vec![(1, 7), (2, 8), (3, 9)]);
    assert_eq!(state.poll(0), vec![(1, 7), (2, 8), (3, 9)]);
    assert_eq!(state.poll(2), vec![(2, 8), (3, 9)]);
    assert_eq!(state.poll(3), vec![(3, 9)]);
    assert_eq!(state.poll(4), vec![]);
    assert_eq!(state.poll(u64::MAX), vec![]);
    state.commit(2);
    assert_eq!(state.committed_offset, 2);
    state.commit(1);
    assert_eq!(state.committed_offset, 2);
    state.commit(2);
    assert_eq!(state.committed_offset, 2);
    state.commit(u64::MAX);
    assert_eq!(state.committed_offset, u64::MAX);
    assert_eq!(state.offset, 3);
}

#[test]
fn state_is_written_as_an_object() {
    let state = KafkaState { logs: vec![(1, 100), (2, 101)], offset: 2, committed_offset: 1 };
    assert_eq!(state.ser_val(), Ok(state_json(&[(1, 100), (2, 101)], 2, 1)));
    assert_eq!(KafkaState::default().ser_val(), Ok(state_json(&[], 0, 0)));
}

#[test]
fn state_round_trip() {
    let state = KafkaState { logs: vec![(1, 100), (2, 101), (9, 0)], offset: 9, committed_offset: 4 };
    assert_eq!(KafkaState::de(&state.ser_val().unwrap()), Ok(state));
    assert_eq!(
        KafkaState::de(&KafkaState::default().ser_val().unwrap()),
        Ok(KafkaState::default())
    );
}

#[test]
fn state_is_read_whatever_the_order_of_the_fields() {
    let value = Json::Object(vec![
        ("offset".to_string(), Json::UInt(1)),
        ("extra".to_string(), Json::Bool(true)),
        ("logs".to_string(), Json::Array(vec![Json::Array(vec![Json::UInt(1), Json::UInt(5)])])),
        ("committed_offset".to_string(), Json::UInt(0)),
    ]);
    assert_eq!(
        KafkaState::de(&value),
        Ok(KafkaState { logs: vec![(1, 5)], offset: 1, committed_offset: 0 })
    );
}

#[test]
fn state_is_not_read_from_other_values() {
    let bad = [
        Json::Null,
        Json::UInt(3),
        Json::Array(vec![]),
        Json::Object(vec![]),
        Json::Object(vec![
            ("logs".to_string(), Json::Array(vec![])),
            ("offset".to_string(), Json::UInt(0)),
        ]),
        Json::Object(vec![
            ("logs".to_string(), Json::Null),
            ("offset".to_string(), Json::UInt(0)),
            ("committed_offset".to_string(), Json::UInt(0)),
        ]),
        Json::Object(vec![
            ("logs".to_string(), Json::Array(vec![])),
            ("offset".to_string(), Json::Int(-1)),
            ("committed_offset".to_string(), Json::UInt(0)),
        ]),
        Json::Object(vec![
            ("logs".to_string(), Json::Array(vec![])),
            ("offset".to_string(), Json::UInt(0)),
            ("committed_offset".to_string(), Json::Str("0".to_string())),
        ]),
        Json::Object(vec![
            ("logs".to_string(), Json::Array(vec![Json::Array(vec![Json::UInt(1)])])),
            ("offset".to_string(), Json::UInt(1)),
            ("committed_offset".to_string(), Json::UInt(0)),
        ]),
        Json::Object(vec![
            (
                "logs".to_string(),
                Json::Array(vec![
                    Json::Array(vec![Json::UInt(1), Json::UInt(2)]),
                    Json::Array(vec![Json::UInt(2), Json::Str("x".to_string())]),
                ]),
            ),
            ("offset".to_string(), Json::UInt(2)),
            ("committed_offset".to_string(), Json::UInt(0)),
        ]),
        Json::Object(vec![
            (
                "logs".to_string(),
                Json::Array(vec![Json::Array(vec![Json::UInt(1), Json::UInt(2), Json::UInt(3)])]),
            ),
            ("offset".to_string(), Json::UInt(1)),
            ("committed_offset".to_string(), Json::UInt(0)),
        ]),
        Json::Object(vec![
            ("logs".to_string(), Json::Array(vec![Json::UInt(1)])),
            ("offset".to_string(), Json::UInt(1)),
            ("committed_offset".to_string(), Json::UInt(0)),
        ]),
    ];
    for value in bad {
        assert_eq!(KafkaState::de(&value), Err(undecodable()), "{:?}", value);
    }
}

#[test]
fn stored_log_cases() {
    assert_eq!(stored_log(Err(RpcError::KeyNotFound)), Ok(None));
    assert_eq!(
        stored_log(Ok(state_json(&[(1, 9)], 1, 1))),
        Ok(Some(KafkaState { logs: vec![(1, 9)], offset: 1, committed_offset: 1 }))
    );
    assert_eq!(stored_log(Ok(Json::UInt(1))), Err(undecodable()));
    assert_eq!(
        stored_log(Err(RpcError::Unknown(11, "x".to_string()))),
        Err(NodeError {
            reason: "Unexpected response from seq-kv".to_string(),
            source: Some(NodeErrorKind::Rpc(RpcError::Unknown(11, "x".to_string()))),
        })
    );
}

#[test]
fn attempts_fail_on_answers_that_hold_no_log() {
    assert_eq!(send_attempt(1, true, Ok(Json::Bool(false))), Err(undecodable()));
    assert_eq!(commit_attempt(1, true, Ok(Json::Bool(false))), Err(undecodable()));
    let lost = NodeError { reason: "Failed to read after CAS".to_string(), source: None };
    assert_eq!(send_attempt(1, false, Err(RpcError::KeyNotFound)), Err(lost.clone()));
    assert_eq!(commit_attempt(1, false, Err(RpcError::KeyNotFound)), Err(lost));
    let unexpected = NodeError {
        reason: "Unexpected response from seq-kv".to_string(),
        source: Some(NodeErrorKind::Rpc(RpcError::CasFailed("y".to_string()))),
    };
    assert_eq!(
        send_attempt(1, true, Err(RpcError::CasFailed("y".to_string()))),
        Err(unexpected.clone())
    );
    let mut msgs = vec![];
    assert_eq!(
        poll_add(&mut msgs, &"k".to_string(), 0, Err(RpcError::CasFailed("y".to_string()))),
        Err(unexpected.clone())
    );
    assert!(msgs.is_empty());
    let mut offsets = vec![];
    assert_eq!(
        list_add(&mut offsets, &"k".to_string(), Err(RpcError::CasFailed("y".to_string()))),
        Err(unexpected)
    );
    assert!(offsets.is_empty());
}

#[test]
fn commit_attempt_on_a_missing_key_starts_from_the_empty_log() {
    let out = commit_attempt(4, true, Err(RpcError::KeyNotFound)).unwrap();
    assert_eq!(out.val, KafkaState { logs: vec![], offset: 0, committed_offset: 4 });
    assert_eq!(out.from, Json::Null);
    assert_eq!(out.to, state_json(&[], 0, 4));
}

#[test]
fn both_key_value_services_are_recognised() {
    assert!(from_kv(&"seq-kv".to_string()));
    assert!(from_kv(&"lin-kv".to_string()));
    assert!(!from_kv(&"lin-kv ".to_string()));
    assert!(!from_kv(&"c1".to_string()));
}
