//! What can go wrong, and how a peer is told.
use vstd::prelude::*;

use crate::json::Json;
use crate::jsonrpc::RpcError;
use crate::text;
use crate::wire::Wire;

verus! {

/// The codes of errors that the protocol fixes.
#[derive(Clone, Copy, Debug, PartialEq, Eq, Structural, Hash)]
pub enum JsonRpcErrorCode {
    /// What was received is not JSON.
    ParseError,
    /// What was received is not a request.
    InvalidRequest,
    /// There is no such method.
    MethodNotFound,
    /// The parameters do not do.
    InvalidParams,
    /// Something went wrong on the side that answers.
    InternalError,
    /// The first of the codes that a server may give a meaning of its own.
    ServerError,
}

impl JsonRpcErrorCode {
    /// The number of a code.
    pub open spec fn number(self) -> int {
        match self {
            JsonRpcErrorCode::ParseError => -32700,
            JsonRpcErrorCode::InvalidRequest => -32600,
            JsonRpcErrorCode::MethodNotFound => -32601,
            JsonRpcErrorCode::InvalidParams => -32602,
            JsonRpcErrorCode::InternalError => -32603,
            JsonRpcErrorCode::ServerError => -32000,
        }
    }

    /// The code of a number, where there is one.
    pub open spec fn numbered(n: int) -> Option<JsonRpcErrorCode> {
        if n == -32700 {
            Some(JsonRpcErrorCode::ParseError)
        } else if n == -32600 {
            Some(JsonRpcErrorCode::InvalidRequest)
        } else if n == -32601 {
            Some(JsonRpcErrorCode::MethodNotFound)
        } else if n == -32602 {
            Some(JsonRpcErrorCode::InvalidParams)
        } else if n == -32603 {
            Some(JsonRpcErrorCode::InternalError)
        } else if n == -32000 {
            Some(JsonRpcErrorCode::ServerError)
        } else {
            None
        }
    }

    /// The number of a code.
    pub fn code(self) -> (r: i64)
        ensures
            r == self.number(),
    {
        match self {
            JsonRpcErrorCode::ParseError => -32700,
            JsonRpcErrorCode::InvalidRequest => -32600,
            JsonRpcErrorCode::MethodNotFound => -32601,
            JsonRpcErrorCode::InvalidParams => -32602,
            JsonRpcErrorCode::InternalError => -32603,
            JsonRpcErrorCode::ServerError => -32000,
        }
    }

    /// The code of a number, where there is one.
    pub fn from_code(code: i64) -> (r: Option<Self>)
        ensures
            r == JsonRpcErrorCode::numbered(code as int),
    {
        if code == -32700 {
            Some(JsonRpcErrorCode::ParseError)
        } else if code == -32600 {
            Some(JsonRpcErrorCode::InvalidRequest)
        } else if code == -32601 {
            Some(JsonRpcErrorCode::MethodNotFound)
        } else if code == -32602 {
            Some(JsonRpcErrorCode::InvalidParams)
        } else if code == -32603 {
            Some(JsonRpcErrorCode::InternalError)
        } else if code == -32000 {
            Some(JsonRpcErrorCode::ServerError)
        } else {
            None
        }
    }
}

/// A number has a code exactly if it is the number of that code.
pub proof fn codes_and_numbers(c: JsonRpcErrorCode, n: int)
    ensures
        JsonRpcErrorCode::numbered(n) == Some(c) <==> c.number() == n,
{
}

/// The error object of a response.
pub type ErrorResult = RpcError;

/// What can go wrong.
#[derive(Clone, Debug)]
pub enum McpError {
    /// The peer answered with an error.
    Rpc(RpcError),
    /// The transport could not be made, connected or used.
    Transport(String),
    /// No answer came within so many milliseconds.
    Timeout(u64),
    /// The session is not open yet.
    NotInitialized,
    /// The session is open already.
    AlreadyInitialized,
    /// The connection was closed.
    Closed,
    /// This cannot be done in the present state.
    InvalidState(String),
    /// An argument does not do.
    InvalidArgument(String),
    /// Input or output does not fit its schema.
    Validation(String),
    /// JSON could not be written or read.
    Json(String),
}

impl From<RpcError> for McpError {
    fn from(e: RpcError) -> (r: Self) {
        McpError::Rpc(e)
    }
}

impl vstd::std_specs::convert::FromSpecImpl<RpcError> for McpError {
    open spec fn obeys_from_spec() -> bool {
        true
    }

    open spec fn from_spec(e: RpcError) -> Self {
        McpError::Rpc(e)
    }
}

impl McpError {
    /// The error in words.
    pub open spec fn told(&self) -> Seq<char> {
        match self {
            McpError::Rpc(e) => e.message@,
            McpError::Transport(m) => "transport error: "@ + m@,
            McpError::Timeout(n) => "request timed out after "@ + text::decimal(*n as int) + " ms"@,
            McpError::NotInitialized => "client is not initialized."@,
            McpError::AlreadyInitialized => "client is initialized."@,
            McpError::Closed => "connection closed"@,
            McpError::InvalidState(m) => m@,
            McpError::InvalidArgument(m) => m@,
            McpError::Validation(m) => m@,
            McpError::Json(m) => "json error: "@ + m@,
        }
    }

    /// An argument does not do, in these words.
    pub open spec fn faults_argument(&self, m: Seq<char>) -> bool {
        *self is InvalidArgument && self->InvalidArgument_0@ == m
    }

    /// The state does not allow it, in these words.
    pub open spec fn faults_state(&self, m: Seq<char>) -> bool {
        *self is InvalidState && self->InvalidState_0@ == m
    }

    /// The transport failed, in these words.
    pub open spec fn faults_transport(&self, m: Seq<char>) -> bool {
        *self is Transport && self->Transport_0@ == m
    }

    /// The code that a peer is told.
    pub open spec fn told_code(&self) -> int {
        match self {
            McpError::Rpc(e) => e.code as int,
            McpError::InvalidArgument(_) => -32602,
            McpError::Validation(_) => -32602,
            _ => -32603,
        }
    }

    /// What a peer is told besides.
    pub open spec fn told_data(&self) -> Option<Json> {
        match self {
            McpError::Rpc(e) => e.data,
            _ => None,
        }
    }

    /// An error of the peer, by its number.
    pub fn rpc(code: i64, message: String) -> (r: Self)
        ensures
            r matches McpError::Rpc(e) && e.code == code && e.message == message && e.data is None,
    {
        McpError::Rpc(RpcError::new(code, message))
    }

    /// An error of the peer, by its code.
    pub fn rpc_code(code: JsonRpcErrorCode, message: String) -> (r: Self)
        ensures
            r matches McpError::Rpc(e) && e.code == code.number() && e.message == message
                && e.data is None,
    {
        McpError::Rpc(RpcError::new(code.code(), message))
    }

    /// This cannot be done in the present state.
    pub fn state(message: String) -> (r: Self)
        ensures
            r == McpError::InvalidState(message),
    {
        McpError::InvalidState(message)
    }

    /// An argument does not do.
    pub fn argument(message: String) -> (r: Self)
        ensures
            r == McpError::InvalidArgument(message),
    {
        McpError::InvalidArgument(message)
    }

    /// The number of an error of the peer.
    pub fn code(&self) -> (r: Option<i64>)
        ensures
            r == match self {
                McpError::Rpc(e) => Some(e.code),
                _ => None,
            },
    {
        match self {
            McpError::Rpc(e) => Some(e.code),
            _ => None,
        }
    }

    /// The code of an error of the peer, where its number has one.
    pub fn code_enum(&self) -> (r: Option<JsonRpcErrorCode>)
        ensures
            r == match self {
                McpError::Rpc(e) => JsonRpcErrorCode::numbered(e.code as int),
                _ => None,
            },
    {
        match self {
            McpError::Rpc(e) => JsonRpcErrorCode::from_code(e.code),
            _ => None,
        }
    }

    /// The error in words.
    pub fn message(&self) -> (r: String)
        ensures
            r@ == self.told(),
    {
        match self {
            McpError::Rpc(e) => e.message.clone(),
            McpError::Transport(m) => text::cat2("transport error: ", m.as_str()),
            McpError::Timeout(n) => {
                let n = text::int_text(*n as i128);
                text::cat3("request timed out after ", n.as_str(), " ms")
            },
            McpError::NotInitialized => "client is not initialized.".to_owned(),
            McpError::AlreadyInitialized => "client is initialized.".to_owned(),
            McpError::Closed => "connection closed".to_owned(),
            McpError::InvalidState(m) => m.clone(),
            McpError::InvalidArgument(m) => m.clone(),
            McpError::Validation(m) => m.clone(),
            McpError::Json(m) => text::cat2("json error: ", m.as_str()),
        }
    }

    /// What the peer said besides.
    pub fn data(&self) -> (r: Option<&Json>)
        ensures
            match r {
                Some(j) => *self is Rpc && self->Rpc_0.data == Some(*j),
                None => !(*self is Rpc && self->Rpc_0.data is Some),
            },
    {
        match self {
            McpError::Rpc(e) => match &e.data {
                Some(j) => Some(j),
                None => None,
            },
            _ => None,
        }
    }

    /// Tells whether the peer answered with this error.
    pub fn is_rpc(&self) -> (r: bool)
        ensures
            r == (*self is Rpc),
    {
        match self {
            McpError::Rpc(_) => true,
            _ => false,
        }
    }

    /// The error that a peer is told.
    pub fn to_rpc_error(&self) -> (r: RpcError)
        ensures
            r.code == self.told_code(),
            r.message@ == self.told(),
            crate::wire::opt(r.data) == crate::wire::opt(self.told_data()),
    {
        match self {
            McpError::Rpc(e) => e.duplicate(),
            McpError::InvalidArgument(m) => RpcError::invalid_params(m.clone()),
            McpError::Validation(m) => RpcError::invalid_params(m.clone()),
            other => RpcError::internal_error(other.message()),
        }
    }
}

} // verus!
