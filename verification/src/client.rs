//! The client: where to send, how long to wait, and the counter that gives
//! every call its identifier. The client builds the request object of a call
//! and reads the response; sending the one and receiving the other is the
//! transport's business.

use serde_json::Value;
use std::time::Duration;
use vstd::prelude::*;

use crate::decode::Decode;
use crate::envelope::{request_json, request_value, JsonRpcAnswer, JsonRpcResponse};
use crate::error::Error;
use crate::json::{json_of, json_u64, Json};
use crate::params::Params;

verus! {

/// The endpoint of a client made by `Client::default`.
pub const DEFAULT_URL: &'static str = "http://localhost:8545";

/// How long a client waits for a response unless told otherwise, in seconds.
pub const DEFAULT_TIMEOUT_SECS: u64 = 5;

/// How long a client waits for a connection unless told otherwise, in
/// seconds.
pub const DEFAULT_CONNECTION_TIMEOUT_SECS: u64 = 10;

/// The duration of a number of whole seconds.
pub uninterp spec fn duration_of_secs(secs: u64) -> Duration;

/// `Duration::from_secs`: the duration depends on the number of seconds
/// alone.
pub assume_specification[ core::time::Duration::from_secs ](secs: u64) -> (d: Duration)
    ensures
        d == duration_of_secs(secs),
;

/// A JSON-RPC client for one endpoint.
#[derive(Debug)]
pub struct Client {
    url: String,
    timeout: Duration,
    connection_timeout: Duration,
    id: u64,
}

/// A client as a mathematical value.
pub ghost struct ClientView {
    /// The endpoint.
    pub url: Seq<char>,
    /// How long to wait for a response.
    pub timeout: Duration,
    /// How long to wait for a connection.
    pub connection_timeout: Duration,
    /// The identifier of the next call.
    pub next_id: u64,
}

impl ClientView {
    /// The client after it has given out one identifier. The counter is a
    /// 64-bit counter: after `u64::MAX` it starts again at 0.
    pub open spec fn advance(self) -> ClientView {
        ClientView {
            next_id: if self.next_id == u64::MAX {
                0
            } else {
                (self.next_id + 1) as u64
            },
            ..self
        }
    }

    /// The client after it has given out `n` identifiers.
    pub open spec fn advance_by(self, n: nat) -> ClientView
        decreases n,
    {
        if n == 0 {
            self
        } else {
            self.advance_by((n - 1) as nat).advance()
        }
    }

    /// As long as the counter does not start again, the call made `n` calls
    /// from now gets the identifier `next_id + n`, and only the counter
    /// changes.
    pub proof fn lemma_advance_by(self, n: nat)
        requires
            self.next_id + n <= u64::MAX,
        ensures
            self.advance_by(n) == (ClientView { next_id: (self.next_id + n) as u64, ..self }),
        decreases n,
    {
        if n > 0 {
            self.lemma_advance_by((n - 1) as nat);
        }
    }

    /// Identifiers are given out in strictly increasing order, so no two
    /// calls of one client share an identifier: a call made `n` calls after
    /// another, in whatever order the callers came to make them, has the
    /// larger identifier. This holds unless the counter starts again at 0
    /// between the two.
    pub proof fn lemma_ids_increase(self, n: nat)
        requires
            0 < n,
            self.next_id + n <= u64::MAX,
        ensures
            self.next_id < self.advance_by(n).next_id,
    {
        self.lemma_advance_by(n);
    }
}

impl View for Client {
    type V = ClientView;

    closed spec fn view(&self) -> ClientView {
        ClientView {
            url: self.url@,
            timeout: self.timeout,
            connection_timeout: self.connection_timeout,
            next_id: self.id,
        }
    }
}

impl Client {
    /// A client for the endpoint `url` whose first call has the identifier
    /// 0. A timeout that is not given is the default one.
    pub fn new(url: String, timeout: Option<Duration>, connection_timeout: Option<Duration>) -> (client:
        Client)
        ensures
            client@ == (ClientView {
                url: url@,
                timeout: match timeout {
                    Some(t) => t,
                    None => duration_of_secs(DEFAULT_TIMEOUT_SECS),
                },
                connection_timeout: match connection_timeout {
                    Some(t) => t,
                    None => duration_of_secs(DEFAULT_CONNECTION_TIMEOUT_SECS),
                },
                next_id: 0,
            }),
    {
        Client {
            url,
            timeout: match timeout {
                Some(t) => t,
                None => Duration::from_secs(DEFAULT_TIMEOUT_SECS),
            },
            connection_timeout: match connection_timeout {
                Some(t) => t,
                None => Duration::from_secs(DEFAULT_CONNECTION_TIMEOUT_SECS),
            },
            id: 0,
        }
    }

    /// The endpoint.
    pub fn url(&self) -> (url: &str)
        ensures
            url@ == self@.url,
    {
        self.url.as_str()
    }

    /// How long to wait for a response.
    pub fn timeout(&self) -> (timeout: Duration)
        ensures
            timeout == self@.timeout,
    {
        self.timeout
    }

    /// How long to wait for a connection.
    pub fn connection_timeout(&self) -> (timeout: Duration)
        ensures
            timeout == self@.connection_timeout,
    {
        self.connection_timeout
    }

    /// Takes the identifier of the next call. The identifier is used up
    /// whatever becomes of the call.
    pub fn next_id(&mut self) -> (id: u64)
        ensures
            id == old(self)@.next_id,
            final(self)@ == old(self)@.advance(),
    {
        let id = self.id;
        self.id = if id == u64::MAX {
            0
        } else {
            id + 1
        };
        id
    }

    /// Starts a call of `method` with the parameters `params`: takes the
    /// next identifier and builds the request object to send.
    pub fn request(&mut self, method: &str, params: &Params) -> (payload: Value)
        ensures
            json_of(payload) == request_json(
                method@,
                params.json(),
                Json::integer(old(self)@.next_id as int),
            ),
            final(self)@ == old(self)@.advance(),
    {
        let id = self.next_id();
        request_value(method, params.to_value(), json_u64(id))
    }

    /// Reads the response to a call whose result is of type `R`.
    ///
    /// A document that is no response envelope fails with
    /// `Error::Serialization` and the text of its first defect. An envelope
    /// with an error object fails with `Error::JsonRpc` and that object. An
    /// envelope with a result gives the result as an `R`, or fails with
    /// `Error::Serialization` where `R` does not accept the result.
    pub fn parse_response<R: Decode>(response: Value) -> (r: Result<R, Error>)
        ensures
            ({
                let doc = json_of(response);
                match r {
                    Ok(x) => JsonRpcResponse::accepts(doc) && doc.has_member("result"@)
                        && R::accepts(doc.member("result"@)) && x.represents(
                        doc.member("result"@),
                    ),
                    Err(Error::JsonRpc(e)) => JsonRpcResponse::accepts(doc) && doc.has_member(
                        "error"@,
                    ) && e.represents(doc.member("error"@)),
                    Err(Error::Serialization(detail)) => match JsonRpcResponse::defect(doc) {
                        Some(defect) => detail@ == defect.detail(),
                        None => doc.has_member("result"@) && !R::accepts(doc.member("result"@)),
                    },
                    Err(_) => false,
                }
            }),
    {
        match JsonRpcResponse::from_value(&response) {
            Ok(parsed) => match parsed.result {
                JsonRpcAnswer::Result(value) => match R::decode(&value) {
                    Ok(x) => Ok(x),
                    Err(detail) => Err(Error::Serialization(detail)),
                },
                JsonRpcAnswer::Error(e) => Err(Error::JsonRpc(e)),
            },
            Err(defect) => Err(Error::Serialization(defect.message())),
        }
    }
}

impl Default for Client {
    /// A client for `DEFAULT_URL` with the default timeouts.
    fn default() -> (client: Client)
        ensures
            client@ == (ClientView {
                url: DEFAULT_URL@,
                timeout: duration_of_secs(DEFAULT_TIMEOUT_SECS),
                connection_timeout: duration_of_secs(DEFAULT_CONNECTION_TIMEOUT_SECS),
                next_id: 0,
            }),
    {
        Client::new(DEFAULT_URL.to_owned(), None, None)
    }
}

} // verus!
