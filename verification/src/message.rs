//! The envelope in which every message travels.

use vstd::prelude::*;

verus! {

/// What a message body may carry.
pub trait Payload: Clone {

}

impl<P: Clone> Payload for P {

}

/// An envelope: who sent it, whom it is for, and its body.
#[derive(Debug, Clone, PartialEq, Eq)]
pub struct Message<P> {
    pub src: String,
    pub dst: String,
    pub body: Body<P>,
}

/// The body of a message: the sender's own number for it, the number of the
/// request it answers, and the payload.
#[derive(Debug, Clone, PartialEq, Eq)]
pub struct Body<P> {
    pub msg_id: Option<u32>,
    pub in_reply_to: Option<u32>,
    pub payload: P,
}

/// The first message a node receives: its own name and the names of all
/// nodes of the cluster.
#[derive(Debug, Clone, PartialEq, Eq)]
pub struct Init {
    pub node_id: String,
    pub node_ids: Vec<String>,
}

/// The answer to [`Init`].
#[derive(Debug, Clone, PartialEq, Eq)]
pub struct InitOk {}

/// The mathematical value of a [`Message`].
pub struct MessageView<P> {
    pub src: Seq<char>,
    pub dst: Seq<char>,
    pub msg_id: Option<u32>,
    pub in_reply_to: Option<u32>,
    pub payload: P,
}

impl<P> View for Message<P> {
    type V = MessageView<P>;

    open spec fn view(&self) -> MessageView<P> {
        MessageView {
            src: self.src@,
            dst: self.dst@,
            msg_id: self.body.msg_id,
            in_reply_to: self.body.in_reply_to,
            payload: self.body.payload,
        }
    }
}

impl<P> MessageView<P> {
    /// The answer to this message: sender and receiver change places, and
    /// the answer names the request's number.
    pub open spec fn reply<Q>(self, msg_id: Option<u32>, payload: Q) -> MessageView<Q> {
        MessageView {
            src: self.dst,
            dst: self.src,
            msg_id,
            in_reply_to: self.msg_id,
            payload,
        }
    }
}

impl<P> Message<P> {
    /// A message from `src` to `dst` that answers nothing.
    pub fn new(src: String, dst: String, msg_id: Option<u32>, payload: P) -> (m: Message<P>)
        ensures
            m@ == (MessageView {
                src: src@,
                dst: dst@,
                msg_id,
                in_reply_to: None,
                payload,
            }),
    {
        Message { src, dst, body: Body { msg_id, in_reply_to: None, payload } }
    }

    /// The answer to this message, numbered `msg_id`.
    pub fn reply<Q>(&self, msg_id: Option<u32>, payload: Q) -> (r: Message<Q>)
        ensures
            r@ == self@.reply(msg_id, payload),
    {
        Message {
            src: self.dst.clone(),
            dst: self.src.clone(),
            body: Body { msg_id, in_reply_to: self.body.msg_id, payload },
        }
    }
}

/// An answer goes back where the request came from and names the request.
pub proof fn lemma_reply_addresses<P, Q>(req: MessageView<P>, msg_id: Option<u32>, payload: Q)
    ensures
        req.reply(msg_id, payload).in_reply_to == req.msg_id,
        req.reply(msg_id, payload).src == req.dst,
        req.reply(msg_id, payload).dst == req.src,
{
}

/// Answering an answer restores the sender and the receiver of the first
/// message.
pub proof fn lemma_reply_twice_restores<P, Q, R>(
    m: MessageView<P>,
    first_id: Option<u32>,
    first: Q,
    second_id: Option<u32>,
    second: R,
)
    ensures
        m.reply(first_id, first).reply(second_id, second).src == m.src,
        m.reply(first_id, first).reply(second_id, second).dst == m.dst,
{
}

} // verus!
