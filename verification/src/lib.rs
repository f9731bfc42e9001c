//! A sans-I/O core for nodes of a line-delimited JSON cluster protocol.
//!
//! Every function here is a pure step: it takes the node's state and an
//! inbound value, and hands back the envelopes to put on the wire. Reading
//! lines, writing lines, timers and task scheduling belong to the caller.

use vstd::prelude::*;

pub mod broadcast;
pub mod echo;
pub mod error;
pub mod g_counter;
pub mod json;
pub mod kafka;
pub mod message;
pub mod node;
pub mod pending;
pub mod service;
pub mod text;
pub mod txn;
pub mod unique_id;

verus! {

/// What the main loop of a node is told.
#[derive(Debug, PartialEq, Eq)]
pub enum LoopEvent<M> {
    /// The inbound queue gave a message, or was closed.
    Inbound(Option<M>),
    /// The queue of handler failures gave an error, or was closed.
    Failure(Option<error::NodeError>),
}

/// What the main loop of a node does next.
#[derive(Debug, PartialEq, Eq)]
pub enum LoopAction<M> {
    /// Hand the message to a handler task of its own, and go on.
    Spawn(M),
    /// Go on.
    Continue,
    /// Log the error and go on: only the message it came from is lost.
    Skip(error::NodeError),
    /// Stop, with this result for the process.
    Stop(Result<(), error::NodeError>),
}

/// Whether an error is about one message only: a payload or an answer that
/// was not of the shape expected. Such an error does not end the node.
pub open spec fn per_message(e: error::NodeErrorView) -> bool {
    e.source matches Some(error::NodeErrorKindView::Json(_))
}

/// The action that follows an event.
pub open spec fn next_action<M>(event: LoopEvent<M>) -> LoopAction<M> {
    match event {
        LoopEvent::Inbound(Some(msg)) => LoopAction::Spawn(msg),
        LoopEvent::Inbound(None) => LoopAction::Stop(Ok(())),
        LoopEvent::Failure(Some(e)) => if per_message(e@) {
            LoopAction::Skip(e)
        } else {
            LoopAction::Stop(Err(e))
        },
        LoopEvent::Failure(None) => LoopAction::Continue,
    }
}

/// One turn of the main loop. Every inbound message gets a handler of its
/// own; the end of the input ends the loop in peace; a handler's failure
/// over the shape of its message is passed over; any other failure of a
/// handler ends the loop with that failure.
pub fn main_loop<M>(event: LoopEvent<M>) -> (action: LoopAction<M>)
    ensures
        action == next_action(event),
{
    match event {
        LoopEvent::Inbound(Some(msg)) => LoopAction::Spawn(msg),
        LoopEvent::Inbound(None) => LoopAction::Stop(Ok(())),
        LoopEvent::Failure(Some(e)) => {
            let shape = match &e.source {
                Some(error::NodeErrorKind::Json(_)) => true,
                _ => false,
            };
            if shape {
                LoopAction::Skip(e)
            } else {
                LoopAction::Stop(Err(e))
            }
        },
        LoopEvent::Failure(None) => LoopAction::Continue,
    }
}

} // verus!
