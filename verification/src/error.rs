//! Errors: the domain errors that a remote peer reports, and the node's own.

use crate::json::{Json, JsonView};
use crate::text::{decimal, u64_to_string};
use vstd::prelude::*;
use vstd::std_specs::convert::FromSpecImpl;
use vstd::string::*;

verus! {

/// An error that a peer returned in answer to a request. These are values
/// for the caller to match on, not failures of the node.
#[derive(Debug, Clone, PartialEq, Eq)]
pub enum RpcError {
    KeyNotFound,
    CasFailed(String),
    Unknown(u8, String),
}

/// The mathematical value of an [`RpcError`].
pub enum RpcErrorView {
    KeyNotFound,
    CasFailed(Seq<char>),
    Unknown(u8, Seq<char>),
}

impl View for RpcError {
    type V = RpcErrorView;

    open spec fn view(&self) -> RpcErrorView {
        match self {
            RpcError::KeyNotFound => RpcErrorView::KeyNotFound,
            RpcError::CasFailed(text) => RpcErrorView::CasFailed(text@),
            RpcError::Unknown(code, text) => RpcErrorView::Unknown(*code, text@),
        }
    }
}

impl RpcErrorView {
    /// The text shown for this error.
    pub open spec fn message(self) -> Seq<char> {
        match self {
            RpcErrorView::KeyNotFound => "Key not found"@,
            RpcErrorView::CasFailed(text) => "CAS error: "@ + text,
            RpcErrorView::Unknown(code, _) => "Unknown error, code: "@ + decimal(code as nat),
        }
    }
}

impl RpcError {
    /// The error that a wire code and its text stand for: 20 is a missing
    /// key, 22 a failed precondition, and any other code is kept as it came.
    pub open spec fn of_code(code: u8, text: String) -> RpcError {
        if code == 20 {
            RpcError::KeyNotFound
        } else if code == 22 {
            RpcError::CasFailed(text)
        } else {
            RpcError::Unknown(code, text)
        }
    }

    /// The error that an `error{code, text}` reply carries.
    pub fn from_code(code: u8, text: String) -> (e: RpcError)
        ensures
            e == RpcError::of_code(code, text),
    {
        if code == 20 {
            RpcError::KeyNotFound
        } else if code == 22 {
            RpcError::CasFailed(text)
        } else {
            RpcError::Unknown(code, text)
        }
    }

    /// The text shown for this error.
    pub fn message(&self) -> (s: String)
        ensures
            s@ == self@.message(),
    {
        match self {
            RpcError::KeyNotFound => String::from_str("Key not found"),
            RpcError::CasFailed(text) => {
                let mut s = String::from_str("CAS error: ");
                s.append(text.as_str());
                s
            },
            RpcError::Unknown(code, _) => {
                let mut s = String::from_str("Unknown error, code: ");
                let digits = u64_to_string(*code as u64);
                s.append(digits.as_str());
                s
            },
        }
    }
}

/// What lies behind a [`NodeError`].
#[derive(Debug, Clone, PartialEq, Eq)]
pub enum NodeErrorKind {
    /// Reading or writing a line failed; the text says how.
    Io(String),
    /// A line or a value was not the JSON that was expected; the text says how.
    Json(String),
    /// A queue between tasks was closed.
    Channel,
    /// A peer answered with an error that the caller did not expect.
    Rpc(RpcError),
}

/// The mathematical value of a [`NodeErrorKind`].
pub enum NodeErrorKindView {
    Io(Seq<char>),
    Json(Seq<char>),
    Channel,
    Rpc(RpcErrorView),
}

impl View for NodeErrorKind {
    type V = NodeErrorKindView;

    open spec fn view(&self) -> NodeErrorKindView {
        match self {
            NodeErrorKind::Io(text) => NodeErrorKindView::Io(text@),
            NodeErrorKind::Json(text) => NodeErrorKindView::Json(text@),
            NodeErrorKind::Channel => NodeErrorKindView::Channel,
            NodeErrorKind::Rpc(e) => NodeErrorKindView::Rpc(e@),
        }
    }
}

impl NodeErrorKindView {
    /// The text shown for this cause.
    pub open spec fn message(self) -> Seq<char> {
        match self {
            NodeErrorKindView::Io(_) => "I/O error"@,
            NodeErrorKindView::Json(_) => "JSON error"@,
            NodeErrorKindView::Channel => "Channel error"@,
            NodeErrorKindView::Rpc(e) => e.message(),
        }
    }
}

impl NodeErrorKind {
    /// The text shown for this cause.
    pub fn message(&self) -> (s: String)
        ensures
            s@ == self@.message(),
    {
        match self {
            NodeErrorKind::Io(_) => String::from_str("I/O error"),
            NodeErrorKind::Json(_) => String::from_str("JSON error"),
            NodeErrorKind::Channel => String::from_str("Channel error"),
            NodeErrorKind::Rpc(e) => e.message(),
        }
    }
}

impl From<RpcError> for NodeErrorKind {
    fn from(e: RpcError) -> (kind: NodeErrorKind) {
        NodeErrorKind::Rpc(e)
    }
}

impl FromSpecImpl<RpcError> for NodeErrorKind {
    open spec fn obeys_from_spec() -> bool {
        true
    }

    open spec fn from_spec(e: RpcError) -> NodeErrorKind {
        NodeErrorKind::Rpc(e)
    }
}

/// A failure of the node: a short reason and, where there is one, its cause.
#[derive(Debug, Clone, PartialEq, Eq)]
pub struct NodeError {
    pub reason: String,
    pub source: Option<NodeErrorKind>,
}

/// The mathematical value of a [`NodeError`].
pub struct NodeErrorView {
    pub reason: Seq<char>,
    pub source: Option<NodeErrorKindView>,
}

impl View for NodeError {
    type V = NodeErrorView;

    open spec fn view(&self) -> NodeErrorView {
        NodeErrorView {
            reason: self.reason@,
            source: match self.source {
                Some(kind) => Some(kind@),
                None => None,
            },
        }
    }
}

impl NodeErrorView {
    /// The text shown for this error.
    pub open spec fn message(self) -> Seq<char> {
        "Node error: "@ + self.reason
    }
}

impl NodeError {
    /// An error with a reason and no cause.
    pub fn new(reason: &str) -> (e: NodeError)
        ensures
            e@ == (NodeErrorView { reason: reason@, source: None }),
    {
        NodeError { reason: String::from_str(reason), source: None }
    }

    /// An error with a reason and its cause.
    pub fn new_with(reason: &str, source: NodeErrorKind) -> (e: NodeError)
        ensures
            e@ == (NodeErrorView { reason: reason@, source: Some(source@) }),
    {
        NodeError { reason: String::from_str(reason), source: Some(source) }
    }

    /// The text shown for this error.
    pub fn message(&self) -> (s: String)
        ensures
            s@ == self@.message(),
    {
        let mut s = String::from_str("Node error: ");
        s.append(self.reason.as_str());
        s
    }
}

/// Turns the absence of a value, or a failure, into a [`NodeError`] that
/// carries a reason.
pub trait WithReason<T> {
    fn with_reason(self, reason: &str) -> Result<T, NodeError>;
}

impl<T> WithReason<T> for Result<T, NodeErrorKind> {
    fn with_reason(self, reason: &str) -> (r: Result<T, NodeError>)
        ensures
            match self {
                Ok(v) => r == Ok::<T, NodeError>(v),
                Err(kind) => r matches Err(e) && e@ == (NodeErrorView {
                    reason: reason@,
                    source: Some(kind@),
                }),
            },
    {
        match self {
            Ok(v) => Ok(v),
            Err(kind) => Err(NodeError::new_with(reason, kind)),
        }
    }
}

impl<T> WithReason<T> for Result<T, RpcError> {
    fn with_reason(self, reason: &str) -> (r: Result<T, NodeError>)
        ensures
            match self {
                Ok(v) => r == Ok::<T, NodeError>(v),
                Err(e) => r matches Err(out) && out@ == (NodeErrorView {
                    reason: reason@,
                    source: Some(NodeErrorKindView::Rpc(e@)),
                }),
            },
    {
        match self {
            Ok(v) => Ok(v),
            Err(e) => Err(NodeError::new_with(reason, NodeErrorKind::from(e))),
        }
    }
}

impl<T> WithReason<T> for Option<T> {
    fn with_reason(self, reason: &str) -> (r: Result<T, NodeError>)
        ensures
            match self {
                Some(v) => r == Ok::<T, NodeError>(v),
                None => r matches Err(e) && e@ == (NodeErrorView { reason: reason@, source: None }),
            },
    {
        match self {
            Some(v) => Ok(v),
            None => Err(NodeError::new(reason)),
        }
    }
}

/// Reading a typed value out of a JSON value.
pub trait JsonDeError<T: View> {
    /// The value that `src` stands for, if it stands for one.
    spec fn decoded(src: JsonView) -> Option<T::V>;

    /// What the error says was expected, when `src` stands for no value.
    spec fn expected() -> Seq<char>;

    /// Reads the value. Fails exactly when `src` stands for none.
    fn de(src: &Json) -> (r: Result<T, NodeError>)
        ensures
            match Self::decoded(src@) {
                Some(v) => r matches Ok(out) && out@ == v,
                None => r matches Err(e) && e@ == (NodeErrorView {
                    reason: "Failed to deserialize"@,
                    source: Some(NodeErrorKindView::Json(Self::expected())),
                }),
            },
    ;
}

/// Writing a typed value as a JSON value.
pub trait JsonSerError<T>: View {
    /// The JSON value that stands for `v`.
    spec fn encoded(v: Self::V) -> JsonView;

    /// Writes the value.
    fn ser_val(&self) -> (r: Result<Json, NodeError>)
        ensures
            r matches Ok(json) && json@ == Self::encoded(self@),
    ;
}

impl JsonDeError<u64> for u64 {
    open spec fn decoded(src: JsonView) -> Option<u64> {
        match src {
            JsonView::UInt(n) => Some(n),
            _ => None,
        }
    }

    open spec fn expected() -> Seq<char> {
        "expected an unsigned integer"@
    }

    fn de(src: &Json) -> (r: Result<u64, NodeError>) {
        match src {
            Json::UInt(n) => Ok(*n),
            _ => Err(
                NodeError::new_with(
                    "Failed to deserialize",
                    NodeErrorKind::Json(String::from_str("expected an unsigned integer")),
                ),
            ),
        }
    }
}

impl JsonSerError<u64> for u64 {
    open spec fn encoded(v: u64) -> JsonView {
        JsonView::UInt(v)
    }

    fn ser_val(&self) -> (r: Result<Json, NodeError>) {
        Ok(Json::UInt(*self))
    }
}

/// A number written as JSON and read back is the same number.
pub proof fn lemma_u64_round_trip(n: u64)
    ensures
        <u64 as JsonDeError<u64>>::decoded(<u64 as JsonSerError<u64>>::encoded(n)) == Some(n),
{
}

} // verus!
