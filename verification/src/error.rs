//! The error taxonomy: the four kinds of failure of a call, the error object
//! that a server returns, and the classification of its code.

use serde_json::Value;
use vstd::prelude::*;
use vstd::string::*;

use crate::decimal::{append_signed_decimal, signed_decimal};

verus! {

/// Why a server failed a call, as told by the code of its error object.
#[derive(Debug, Clone, Copy, PartialEq, Eq, Structural)]
pub enum ErrorReason {
    ParseError,
    InvalidRequest,
    MethodNotFound,
    InvalidParams,
    InternalError,
    ServerError(i32),
}

impl ErrorReason {
    /// The reason that a code stands for: the five reserved codes have a name
    /// each, every other code is a server error that keeps its code.
    pub open spec fn of_code(code: i32) -> ErrorReason {
        if code == -32700 {
            ErrorReason::ParseError
        } else if code == -32600 {
            ErrorReason::InvalidRequest
        } else if code == -32601 {
            ErrorReason::MethodNotFound
        } else if code == -32602 {
            ErrorReason::InvalidParams
        } else if code == -32603 {
            ErrorReason::InternalError
        } else {
            ErrorReason::ServerError(code)
        }
    }

    /// Classifies an error code.
    pub fn from_code(code: i32) -> (reason: ErrorReason)
        ensures
            reason == Self::of_code(code),
    {
        match code {
            -32700 => ErrorReason::ParseError,
            -32600 => ErrorReason::InvalidRequest,
            -32601 => ErrorReason::MethodNotFound,
            -32602 => ErrorReason::InvalidParams,
            -32603 => ErrorReason::InternalError,
            _ => ErrorReason::ServerError(code),
        }
    }
}

/// The error object of a response: a code, a message, and optional data.
#[derive(Debug, Clone, PartialEq)]
pub struct JsonRpcError {
    pub code: i32,
    pub message: String,
    pub data: Option<Value>,
}

impl JsonRpcError {
    /// The code of the error object.
    pub fn code(&self) -> (code: i32)
        ensures
            code == self.code,
    {
        self.code
    }

    /// The reason that the code of the error object stands for.
    pub fn reason(&self) -> (reason: ErrorReason)
        ensures
            reason == ErrorReason::of_code(self.code),
    {
        ErrorReason::from_code(self.code)
    }

    /// The text of the error object: `JSON-RPC error`, the code in decimal, a
    /// colon, and the message.
    pub open spec fn text(&self) -> Seq<char> {
        "JSON-RPC error "@ + signed_decimal(self.code as int) + ": "@ + self.message@
    }

    /// The error object as a line of text.
    pub fn describe(&self) -> (s: String)
        ensures
            s@ == self.text(),
    {
        let mut s = "JSON-RPC error ".to_owned();
        append_signed_decimal(&mut s, self.code);
        s.append(": ");
        s.append(self.message.as_str());
        s
    }
}

/// The failure of a call. A call fails in exactly one of these ways.
#[derive(Debug, Clone)]
pub enum Error {
    /// The server answered with an error object.
    JsonRpc(JsonRpcError),
    /// The exchange with the server failed.
    Network(String),
    /// The response is not an envelope of the expected shape, or its result
    /// is not of the type asked for.
    Serialization(String),
    /// The parameters are not of the shape asked for.
    InvalidParams(String),
}

impl Error {
    /// The text of the failure: what kind of failure it is, a colon, and the
    /// detail.
    pub open spec fn text(&self) -> Seq<char> {
        match *self {
            Error::JsonRpc(e) => "JSON-RPC error: "@ + e.text(),
            Error::Network(detail) => "Network error: "@ + detail@,
            Error::Serialization(detail) => "Serialization error: "@ + detail@,
            Error::InvalidParams(detail) => "Invalid parameters: "@ + detail@,
        }
    }

    /// The failure as a line of text.
    pub fn describe(&self) -> (s: String)
        ensures
            s@ == self.text(),
    {
        match self {
            Error::JsonRpc(e) => "JSON-RPC error: ".to_owned().concat(e.describe().as_str()),
            Error::Network(detail) => "Network error: ".to_owned().concat(detail.as_str()),
            Error::Serialization(detail) => "Serialization error: ".to_owned().concat(
                detail.as_str(),
            ),
            Error::InvalidParams(detail) => "Invalid parameters: ".to_owned().concat(
                detail.as_str(),
            ),
        }
    }
}

} // verus!
