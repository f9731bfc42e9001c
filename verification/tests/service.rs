use vortex::error::{NodeError, NodeErrorKind, RpcError};
use vortex::json::Json;
use vortex::message::{Body, Init, Message};
use vortex::node::{Delivery, Node};
use vortex::service::{
    cas_outcome, fetch_and_read, fetch_and_swapped, read_outcome, write_outcome, KvRequest,
    KvResponse, Swap,
};

fn node() -> Node {
    Node::new(Message {
        src: "c0".to_string(),
        dst: "n1".to_string(),
        body: Body {
            msg_id: Some(1),
            in_reply_to: None,
            payload: Init { node_id: "n1".to_string(), node_ids: vec!["n1".to_string()] },
        },
    })
    .0
}

fn from_kv(svc: &str, in_reply_to: Option<u32>, payload: KvResponse) -> Message<KvResponse> {
    Message {
        src: svc.to_string(),
        dst: "n1".to_string(),
        body: Body { msg_id: Some(500), in_reply_to, payload },
    }
}

fn unexpected(e: RpcError) -> NodeError {
    NodeError {
        reason: "Unexpected response from seq-kv".to_string(),
        source: Some(NodeErrorKind::Rpc(e)),
    }
}

#[test]
fn kv_read_asks_the_service_and_registers_the_caller() {
    let mut node = node();
    let out = node.kv_read("seq-kv", Json::Str("k".to_string()), 5);
    assert_eq!(
        out,
        Message {
            src: "n1".to_string(),
            dst: "seq-kv".to_string(),
            body: Body {
                msg_id: Some(1),
                in_reply_to: None,
                payload: KvRequest::Read { key: Json::Str("k".to_string()) },
            },
        }
    );
    let reply = from_kv("seq-kv", Some(1), KvResponse::ReadOk { value: Json::UInt(3) });
    assert_eq!(
        node.handle_kv(reply),
        Ok(Some(Delivery { slot: 5, result: Ok(Json::UInt(3)) }))
    );
}

#[test]
fn kv_write_asks_the_service() {
    let mut node = node();
    let out = node.kv_write("lin-kv", Json::UInt(1), Json::Str("v".to_string()), 6);
    assert_eq!(out.dst, "lin-kv");
    assert_eq!(out.body.msg_id, Some(1));
    assert_eq!(
        out.body.payload,
        KvRequest::Write { key: Json::UInt(1), value: Json::Str("v".to_string()) }
    );
    let reply = from_kv("lin-kv", Some(1), KvResponse::WriteOk);
    assert_eq!(node.handle_kv(reply), Ok(Some(Delivery { slot: 6, result: Ok(Json::Null) })));
}

#[test]
fn kv_cas_asks_to_create_a_missing_key() {
    let mut node = node();
    let out = node.kv_cas("lin-kv", Json::Str("k".to_string()), Json::Null, Json::UInt(1), 7);
    assert_eq!(
        out.body.payload,
        KvRequest::Cas {
            key: Json::Str("k".to_string()),
            from: Json::Null,
            to: Json::UInt(1),
            create_if_not_exists: Some(true),
        }
    );
    let reply = from_kv("lin-kv", Some(1), KvResponse::CasOk);
    assert_eq!(node.handle_kv(reply), Ok(Some(Delivery { slot: 7, result: Ok(Json::Null) })));
}

#[test]
fn handle_kv_maps_error_codes() {
    let mut node = node();
    node.kv_read("seq-kv", Json::UInt(1), 1);
    node.kv_read("seq-kv", Json::UInt(2), 2);
    node.kv_read("seq-kv", Json::UInt(3), 3);
    let missing = from_kv(
        "seq-kv",
        Some(1),
        KvResponse::Error { code: 20, text: "key does not exist".to_string() },
    );
    assert_eq!(
        node.handle_kv(missing),
        Ok(Some(Delivery { slot: 1, result: Err(RpcError::KeyNotFound) }))
    );
    let stale = from_kv(
        "seq-kv",
        Some(2),
        KvResponse::Error { code: 22, text: "current value 4 is not 3".to_string() },
    );
    assert_eq!(
        node.handle_kv(stale),
        Ok(Some(Delivery {
            slot: 2,
            result: Err(RpcError::CasFailed("current value 4 is not 3".to_string())),
        }))
    );
    let other = from_kv(
        "seq-kv",
        Some(3),
        KvResponse::Error { code: 11, text: "temporarily unavailable".to_string() },
    );
    assert_eq!(
        node.handle_kv(other),
        Ok(Some(Delivery {
            slot: 3,
            result: Err(RpcError::Unknown(11, "temporarily unavailable".to_string())),
        }))
    );
}

#[test]
fn handle_kv_ignores_a_second_answer_and_rejects_one_without_a_request() {
    let mut node = node();
    node.kv_read("seq-kv", Json::UInt(1), 1);
    let first = from_kv("seq-kv", Some(1), KvResponse::ReadOk { value: Json::Null });
    assert!(matches!(node.handle_kv(first), Ok(Some(_))));
    let second = from_kv("seq-kv", Some(1), KvResponse::ReadOk { value: Json::Null });
    assert_eq!(node.handle_kv(second), Ok(None));
    let nameless = from_kv("seq-kv", None, KvResponse::WriteOk);
    assert_eq!(
        node.handle_kv(nameless),
        Err(NodeError { reason: "Invalid Ok message".to_string(), source: None })
    );
}

#[test]
fn read_outcome_cases() {
    assert_eq!(read_outcome(Ok(Json::UInt(4))), Ok(Some(Json::UInt(4))));
    assert_eq!(read_outcome(Ok(Json::Null)), Ok(Some(Json::Null)));
    assert_eq!(read_outcome(Err(RpcError::KeyNotFound)), Ok(None));
    assert_eq!(
        read_outcome(Err(RpcError::CasFailed("x".to_string()))),
        Err(unexpected(RpcError::CasFailed("x".to_string())))
    );
    assert_eq!(
        read_outcome(Err(RpcError::Unknown(13, "y".to_string()))),
        Err(unexpected(RpcError::Unknown(13, "y".to_string())))
    );
}

#[test]
fn write_outcome_cases() {
    assert_eq!(write_outcome(Ok(Json::Null)), Ok(()));
    assert_eq!(
        write_outcome(Err(RpcError::KeyNotFound)),
        Err(unexpected(RpcError::KeyNotFound))
    );
    assert_eq!(
        write_outcome(Err(RpcError::Unknown(1, "z".to_string()))),
        Err(unexpected(RpcError::Unknown(1, "z".to_string())))
    );
}

#[test]
fn cas_outcome_cases() {
    assert_eq!(cas_outcome(Ok(Json::Null)), Ok(true));
    assert_eq!(cas_outcome(Err(RpcError::CasFailed("stale".to_string()))), Ok(false));
    assert_eq!(cas_outcome(Err(RpcError::KeyNotFound)), Err(unexpected(RpcError::KeyNotFound)));
    assert_eq!(
        cas_outcome(Err(RpcError::Unknown(30, "w".to_string()))),
        Err(unexpected(RpcError::Unknown(30, "w".to_string())))
    );
}

#[test]
fn kv_fetch_and_begins_with_a_read() {
    let mut node = node();
    let out = node.kv_fetch_and("lin-kv", Json::Str("counter".to_string()), 12);
    assert_eq!(out.dst, "lin-kv");
    assert_eq!(out.body.payload, KvRequest::Read { key: Json::Str("counter".to_string()) });
    let reply = from_kv("lin-kv", Some(1), KvResponse::ReadOk { value: Json::UInt(1) });
    assert_eq!(node.handle_kv(reply), Ok(Some(Delivery { slot: 12, result: Ok(Json::UInt(1)) })));
}

#[test]
fn fetch_and_read_starts_from_the_default_where_the_key_is_missing() {
    let out = fetch_and_read(true, Err(RpcError::KeyNotFound), |n: u64| n + 5);
    assert_eq!(out, Ok(Swap { val: 5, from: Json::Null, to: Json::UInt(5) }));
}

#[test]
fn fetch_and_read_applies_the_function_to_what_was_read() {
    let out = fetch_and_read(true, Ok(Json::UInt(10)), |n: u64| n * 2);
    assert_eq!(out, Ok(Swap { val: 20, from: Json::UInt(10), to: Json::UInt(20) }));
    let again = fetch_and_read(false, Ok(Json::UInt(11)), |n: u64| n * 2);
    assert_eq!(again, Ok(Swap { val: 22, from: Json::UInt(11), to: Json::UInt(22) }));
}

#[test]
fn fetch_and_read_fails_where_the_key_is_gone_after_a_failed_swap() {
    let out = fetch_and_read(false, Err(RpcError::KeyNotFound), |n: u64| n + 1);
    assert_eq!(
        out,
        Err(NodeError { reason: "Failed to read after CAS".to_string(), source: None })
    );
}

#[test]
fn fetch_and_read_fails_on_a_value_of_another_type_and_on_other_errors() {
    let out = fetch_and_read(true, Ok(Json::Str("ten".to_string())), |n: u64| n + 1);
    assert_eq!(
        out,
        Err(NodeError {
            reason: "Failed to deserialize".to_string(),
            source: Some(NodeErrorKind::Json("expected an unsigned integer".to_string())),
        })
    );
    let other = fetch_and_read(true, Err(RpcError::Unknown(14, "abort".to_string())), |n: u64| n);
    assert_eq!(other, Err(unexpected(RpcError::Unknown(14, "abort".to_string()))));
}

#[test]
fn fetch_and_swapped_cases() {
    assert_eq!(fetch_and_swapped(7u64, Ok(Json::Null)), Ok(Some(7)));
    assert_eq!(fetch_and_swapped(7u64, Err(RpcError::CasFailed("stale".to_string()))), Ok(None));
    assert_eq!(
        fetch_and_swapped(7u64, Err(RpcError::KeyNotFound)),
        Err(unexpected(RpcError::KeyNotFound))
    );
}
