use vortex::error::{NodeError, RpcError};
use vortex::json::Json;
use vortex::message::{Body, Init, InitOk, Message};
use vortex::node::{rpc_step, Delivery, Node, RpcAction, RpcEvent};

fn init(node_id: &str, node_ids: &[&str]) -> Message<Init> {
    Message {
        src: "c1".to_string(),
        dst: node_id.to_string(),
        body: Body {
            msg_id: Some(1),
            in_reply_to: None,
            payload: Init {
                node_id: node_id.to_string(),
                node_ids: node_ids.iter().map(|s| s.to_string()).collect(),
            },
        },
    }
}

fn answer(src: &str, in_reply_to: Option<u32>) -> Message<()> {
    Message {
        src: src.to_string(),
        dst: "n1".to_string(),
        body: Body { msg_id: Some(77), in_reply_to, payload: () },
    }
}

#[test]
fn init_is_answered_without_a_number() {
    let (node, reply) = Node::new(init("n1", &["n1", "n2"]));
    assert_eq!(node.id, "n1");
    assert_eq!(node.node_ids, vec!["n1".to_string(), "n2".to_string()]);
    assert_eq!(node.msg_id, 1);
    assert_eq!(
        reply,
        Message {
            src: "n1".to_string(),
            dst: "c1".to_string(),
            body: Body { msg_id: None, in_reply_to: Some(1), payload: InitOk {} },
        }
    );
}

#[test]
fn send_numbers_messages_from_one() {
    let (mut node, _) = Node::new(init("n1", &["n1"]));
    let first = node.send("n2".to_string(), 10u8);
    let second = node.send("n3".to_string(), 11u8);
    assert_eq!(first.src, "n1");
    assert_eq!(first.dst, "n2");
    assert_eq!(first.body.msg_id, Some(1));
    assert_eq!(first.body.in_reply_to, None);
    assert_eq!(first.body.payload, 10);
    assert_eq!(second.body.msg_id, Some(2));
    assert_eq!(node.msg_id, 3);
}

#[test]
fn message_numbers_wrap_after_the_largest() {
    let (mut node, _) = Node::new(init("n1", &["n1"]));
    node.msg_id = u32::MAX;
    let last = node.send("n2".to_string(), ());
    assert_eq!(last.body.msg_id, Some(u32::MAX));
    assert_eq!(node.msg_id, 0);
}

#[test]
fn reply_swaps_the_ends_and_names_the_request() {
    let (mut node, _) = Node::new(init("n1", &["n1"]));
    let request = Message {
        src: "c7".to_string(),
        dst: "n1".to_string(),
        body: Body { msg_id: Some(42), in_reply_to: None, payload: "ping" },
    };
    let reply = node.reply(&request, "pong");
    assert_eq!(reply.src, "n1");
    assert_eq!(reply.dst, "c7");
    assert_eq!(reply.body.msg_id, Some(1));
    assert_eq!(reply.body.in_reply_to, Some(42));
    assert_eq!(reply.body.payload, "pong");
    let back = reply.reply(Some(5), ());
    assert_eq!(back.src, request.src);
    assert_eq!(back.dst, request.dst);
}

#[test]
fn ack_wakes_the_caller_of_the_request_once() {
    let (mut node, _) = Node::new(init("n1", &["n1", "n2"]));
    let request = node.rpc("n2".to_string(), "ask", 900);
    assert_eq!(request.body.msg_id, Some(1));
    assert_eq!(request.dst, "n2");
    let first = node.ack(&answer("n2", Some(1)), Ok(Json::UInt(5)));
    assert_eq!(first, Ok(Some(Delivery { slot: 900, result: Ok(Json::UInt(5)) })));
    let second = node.ack(&answer("n2", Some(1)), Ok(Json::UInt(6)));
    assert_eq!(second, Ok(None));
}

#[test]
fn ack_from_another_peer_or_for_another_number_wakes_nobody() {
    let (mut node, _) = Node::new(init("n1", &["n1", "n2", "n3"]));
    node.rpc("n2".to_string(), "ask", 1);
    assert_eq!(node.ack(&answer("n3", Some(1)), Ok(Json::Null)), Ok(None));
    assert_eq!(node.ack(&answer("n2", Some(2)), Ok(Json::Null)), Ok(None));
    assert_eq!(
        node.ack(&answer("n2", Some(1)), Err(RpcError::KeyNotFound)),
        Ok(Some(Delivery { slot: 1, result: Err(RpcError::KeyNotFound) }))
    );
}

#[test]
fn ack_without_in_reply_to_is_an_error() {
    let (mut node, _) = Node::new(init("n1", &["n1"]));
    node.rpc("n2".to_string(), "ask", 1);
    let out = node.ack(&answer("n2", None), Ok(Json::Null));
    assert_eq!(out, Err(NodeError { reason: "Invalid Ok message".to_string(), source: None }));
    assert_eq!(
        node.ack(&answer("n2", Some(1)), Ok(Json::Null)),
        Ok(Some(Delivery { slot: 1, result: Ok(Json::Null) }))
    );
}

#[test]
fn cancel_drops_the_slot_and_a_late_ack_is_ignored() {
    let (mut node, _) = Node::new(init("n1", &["n1"]));
    node.rpc("n2".to_string(), "ask", 31);
    assert_eq!(node.cancel(&"n2".to_string(), 1), Some(31));
    assert_eq!(node.cancel(&"n2".to_string(), 1), None);
    assert_eq!(node.ack(&answer("n2", Some(1)), Ok(Json::Null)), Ok(None));
}

#[test]
fn two_requests_to_one_peer_are_kept_apart() {
    let (mut node, _) = Node::new(init("n1", &["n1"]));
    let a = node.rpc("n2".to_string(), "a", 100);
    let b = node.rpc("n2".to_string(), "b", 200);
    assert_ne!(a.body.msg_id, b.body.msg_id);
    assert_eq!(
        node.ack(&answer("n2", b.body.msg_id), Ok(Json::Bool(true))),
        Ok(Some(Delivery { slot: 200, result: Ok(Json::Bool(true)) }))
    );
    assert_eq!(
        node.ack(&answer("n2", a.body.msg_id), Ok(Json::Bool(false))),
        Ok(Some(Delivery { slot: 100, result: Ok(Json::Bool(false)) }))
    );
}

#[test]
fn rpc_step_resends_on_timeout_and_returns_on_delivery() {
    assert_eq!(rpc_step(RpcEvent::Timeout), RpcAction::Resend);
    assert_eq!(
        rpc_step(RpcEvent::Delivered(Ok(Json::UInt(3)))),
        RpcAction::Return(Ok(Json::UInt(3)))
    );
    assert_eq!(
        rpc_step(RpcEvent::Delivered(Err(RpcError::CasFailed("x".to_string())))),
        RpcAction::Return(Err(RpcError::CasFailed("x".to_string())))
    );
    assert_eq!(
        rpc_step(RpcEvent::Closed),
        RpcAction::Fail(NodeError {
            reason: "Failed to receive RPC reply".to_string(),
            source: None
        })
    );
}
