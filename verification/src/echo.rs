//! The echo workload: whatever a client sends comes back.

use crate::message::{Body, Message};
use crate::node::Node;
use vstd::prelude::*;

verus! {

/// What clients ask.
#[derive(Debug, Clone, PartialEq, Eq)]
pub enum Request {
    Echo { echo: String },
}

/// What the node answers.
#[derive(Debug, Clone, PartialEq, Eq)]
pub enum Response {
    EchoOk { echo: String },
}

/// The answer to a request.
pub open spec fn answer(request: Request) -> Response {
    match request {
        Request::Echo { echo } => Response::EchoOk { echo },
    }
}

/// Answers `echo` with `echo_ok` and the same text.
pub fn handle_msg(msg: Message<Request>, node: &mut Node) -> (out: Message<Response>)
    ensures
        final(node).sent_reply(*old(node), out@, msg@),
        out@.payload == answer(msg.body.payload),
{
    let header = Message {
        src: msg.src,
        dst: msg.dst,
        body: Body { msg_id: msg.body.msg_id, in_reply_to: msg.body.in_reply_to, payload: () },
    };
    match msg.body.payload {
        Request::Echo { echo } => node.reply(&header, Response::EchoOk { echo }),
    }
}

} // verus!
