//! The envelopes on the wire: the request object that is sent, and the
//! response object that comes back with either a result or an error.

use serde_json::Value;
use vstd::prelude::*;

use crate::decode::Decode;
use crate::error::JsonRpcError;
use crate::json::{
    entries_of, json_i64, json_null, json_object, json_of, json_string, no_members, object_get,
    Json, JsonObject,
};
use crate::params::Params;

verus! {

/// The protocol version that every envelope carries.
pub const JSON_RPC_VERSION: &'static str = "2.0";

/// The identifier of a call: a number, a string, or null. The response to a
/// request carries the identifier of the request.
#[derive(Clone, Eq, PartialEq, Debug, Hash)]
pub enum Id {
    Num(i64),
    Str(String),
    Null,
}

/// An identifier as a mathematical value.
pub ghost enum IdView {
    Num(int),
    Str(Seq<char>),
    Null,
}

impl View for Id {
    type V = IdView;

    open spec fn view(&self) -> IdView {
        match *self {
            Id::Num(n) => IdView::Num(n as int),
            Id::Str(s) => IdView::Str(s@),
            Id::Null => IdView::Null,
        }
    }
}

impl Id {
    /// The document that the identifier is sent as: a bare number, string or
    /// `null`.
    pub open spec fn json(&self) -> Json {
        match *self {
            Id::Num(n) => Json::integer(n as int),
            Id::Str(s) => Json::String(s@),
            Id::Null => Json::Null,
        }
    }

    /// The identifier as a JSON value.
    pub fn to_value(&self) -> (v: Value)
        ensures
            json_of(v) == self.json(),
    {
        match self {
            Id::Num(n) => json_i64(*n),
            Id::Str(s) => json_string(s.clone()),
            Id::Null => json_null(),
        }
    }

    /// Sending an identifier and reading it back gives the same identifier:
    /// the document of `id` decodes, and any identifier that it decodes to
    /// is of the same kind as `id` and has the same value.
    pub proof fn lemma_round_trip(id: Id, other: Id)
        ensures
            Id::accepts(id.json()),
            id.represents(id.json()),
            other.represents(id.json()) ==> other@ == id@,
    {
    }
}

/// An identifier is read from an integer that fits `i64`, from a string, or
/// from `null`; a number is never read as a string, nor a string as a number.
impl Decode for Id {
    open spec fn accepts(doc: Json) -> bool {
        doc is Null || doc is String || i64::accepts(doc)
    }

    open spec fn represents(&self, doc: Json) -> bool {
        match doc {
            Json::Null => *self is Null,
            Json::String(text) => self@ == IdView::Str(text),
            Json::Number(_) => *self matches Id::Num(n) && n.represents(doc),
            _ => false,
        }
    }

    fn decode(v: &Value) -> (r: Result<Self, String>) {
        if v.is_null() {
            return Ok(Id::Null);
        }
        if let Some(text) = v.as_str() {
            return Ok(Id::Str(text.to_owned()));
        }
        match v.as_i64() {
            Some(n) => Ok(Id::Num(n)),
            None => Err("expected an integer, a string or null".to_owned()),
        }
    }
}

/// The error object is read from an object with an integer `code` that fits
/// `i32` and a string `message`; `data` is whatever the member `data` holds,
/// and absent where there is no such member or it is `null`. Other members
/// are ignored.
impl Decode for JsonRpcError {
    open spec fn accepts(doc: Json) -> bool {
        &&& doc.has_member("code"@) && i32::accepts(doc.member("code"@))
        &&& doc.has_member("message"@) && String::accepts(doc.member("message"@))
    }

    open spec fn represents(&self, doc: Json) -> bool {
        &&& doc.has_member("code"@) && self.code.represents(doc.member("code"@))
        &&& doc.has_member("message"@) && self.message.represents(doc.member("message"@))
        &&& if doc.has_member("data"@) {
            self.data.represents(doc.member("data"@))
        } else {
            self.data is None
        }
    }

    fn decode(v: &Value) -> (r: Result<Self, String>) {
        let members = match v.as_object() {
            Some(m) => m,
            None => {
                return Err("expected an error object".to_owned());
            },
        };
        let code = match object_get(members, "code") {
            Some(c) => match i32::decode(c) {
                Ok(n) => n,
                Err(detail) => {
                    return Err(detail);
                },
            },
            None => {
                return Err("missing field `code`".to_owned());
            },
        };
        let message = match object_get(members, "message") {
            Some(m) => match String::decode(m) {
                Ok(s) => s,
                Err(detail) => {
                    return Err(detail);
                },
            },
            None => {
                return Err("missing field `message`".to_owned());
            },
        };
        let data = match object_get(members, "data") {
            Some(d) => if d.is_null() {
                None
            } else {
                Some(d.clone())
            },
            None => None,
        };
        Ok(JsonRpcError { code, message, data })
    }
}

/// What a response answers with: the result of the call, or an error object.
#[derive(Clone, Debug, PartialEq)]
pub enum JsonRpcAnswer {
    Result(Value),
    Error(JsonRpcError),
}

/// A response: the answer and the identifier of the request it answers.
#[derive(Debug, Clone, PartialEq)]
pub struct JsonRpcResponse {
    pub result: JsonRpcAnswer,
    pub id: Id,
}

/// Why a document is no response envelope.
#[derive(Clone, Copy, Debug, PartialEq, Eq, Structural)]
pub enum Malformed {
    /// The document is not an object.
    NotAnObject,
    /// The member `jsonrpc` is missing or is not the string `"2.0"`.
    UnknownVersion,
    /// The object has neither `result` nor `error`.
    MissingAnswer,
    /// The object has both `result` and `error`.
    AmbiguousAnswer,
    /// The member `error` is no error object.
    InvalidError,
    /// The member `id` is missing or is no identifier.
    InvalidId,
}

impl Malformed {
    /// The text that tells of the defect.
    pub open spec fn detail(self) -> Seq<char> {
        match self {
            Malformed::NotAnObject => "malformed response: not an object"@,
            Malformed::UnknownVersion => "Unknown jsonrpc version"@,
            Malformed::MissingAnswer => "malformed response: missing result and error"@,
            Malformed::AmbiguousAnswer => "malformed response: both result and error"@,
            Malformed::InvalidError => "malformed response: invalid error object"@,
            Malformed::InvalidId => "malformed response: invalid id"@,
        }
    }

    /// The text that tells of the defect.
    pub fn message(self) -> (s: String)
        ensures
            s@ == self.detail(),
    {
        match self {
            Malformed::NotAnObject => "malformed response: not an object".to_owned(),
            Malformed::UnknownVersion => "Unknown jsonrpc version".to_owned(),
            Malformed::MissingAnswer => "malformed response: missing result and error".to_owned(),
            Malformed::AmbiguousAnswer => "malformed response: both result and error".to_owned(),
            Malformed::InvalidError => "malformed response: invalid error object".to_owned(),
            Malformed::InvalidId => "malformed response: invalid id".to_owned(),
        }
    }
}

impl JsonRpcResponse {
    /// The first defect of a document as a response envelope, if it has one.
    /// The version is looked at first, then the answer, then the identifier.
    pub open spec fn defect(doc: Json) -> Option<Malformed> {
        if !(doc is Object) {
            Some(Malformed::NotAnObject)
        } else if !(doc.has_member("jsonrpc"@) && doc.member("jsonrpc"@) == Json::String(
            JSON_RPC_VERSION@,
        )) {
            Some(Malformed::UnknownVersion)
        } else if !doc.has_member("result"@) && !doc.has_member("error"@) {
            Some(Malformed::MissingAnswer)
        } else if doc.has_member("result"@) && doc.has_member("error"@) {
            Some(Malformed::AmbiguousAnswer)
        } else if doc.has_member("error"@) && !JsonRpcError::accepts(doc.member("error"@)) {
            Some(Malformed::InvalidError)
        } else if !(doc.has_member("id"@) && Id::accepts(doc.member("id"@))) {
            Some(Malformed::InvalidId)
        } else {
            None
        }
    }

    /// Reads a response envelope. Succeeds exactly on a document without
    /// defect; otherwise tells the first defect.
    pub fn from_value(v: &Value) -> (r: Result<JsonRpcResponse, Malformed>)
        ensures
            match r {
                Ok(response) => Self::defect(json_of(*v)) is None && response.represents(
                    json_of(*v),
                ),
                Err(defect) => Self::defect(json_of(*v)) == Some(defect),
            },
    {
        let members = match v.as_object() {
            Some(m) => m,
            None => {
                return Err(Malformed::NotAnObject);
            },
        };
        let version_ok = match object_get(members, "jsonrpc") {
            Some(version) => match version.as_str() {
                Some(text) => text.to_owned() == JSON_RPC_VERSION.to_owned(),
                None => false,
            },
            None => false,
        };
        if !version_ok {
            return Err(Malformed::UnknownVersion);
        }
        let answer = match (object_get(members, "result"), object_get(members, "error")) {
            (None, None) => {
                return Err(Malformed::MissingAnswer);
            },
            (Some(_), Some(_)) => {
                return Err(Malformed::AmbiguousAnswer);
            },
            (Some(result), None) => JsonRpcAnswer::Result(result.clone()),
            (None, Some(error)) => match JsonRpcError::decode(error) {
                Ok(e) => JsonRpcAnswer::Error(e),
                Err(_) => {
                    return Err(Malformed::InvalidError);
                },
            },
        };
        let id = match object_get(members, "id") {
            Some(id) => match Id::decode(id) {
                Ok(id) => id,
                Err(_) => {
                    return Err(Malformed::InvalidId);
                },
            },
            None => {
                return Err(Malformed::InvalidId);
            },
        };
        Ok(JsonRpcResponse { result: answer, id })
    }
}

/// A response is read from an object whose `jsonrpc` is `"2.0"`, that has
/// exactly one of `result` and `error`, and that has an `id`.
impl Decode for JsonRpcResponse {
    open spec fn accepts(doc: Json) -> bool {
        Self::defect(doc) is None
    }

    open spec fn represents(&self, doc: Json) -> bool {
        &&& match self.result {
            JsonRpcAnswer::Result(value) => doc.has_member("result"@) && !doc.has_member("error"@)
                && json_of(value) == doc.member("result"@),
            JsonRpcAnswer::Error(error) => doc.has_member("error"@) && !doc.has_member("result"@)
                && error.represents(doc.member("error"@)),
        }
        &&& doc.has_member("id"@) && self.id.represents(doc.member("id"@))
    }

    fn decode(v: &Value) -> (r: Result<Self, String>) {
        match JsonRpcResponse::from_value(v) {
            Ok(response) => Ok(response),
            Err(defect) => Err(defect.message()),
        }
    }
}

/// The request object for a call of `method` with the parameters `params`
/// under the identifier `id`.
pub open spec fn request_json(method: Seq<char>, params: Json, id: Json) -> Json {
    Json::Object(
        no_members().insert("jsonrpc"@, Json::String(JSON_RPC_VERSION@)).insert(
            "method"@,
            Json::String(method),
        ).insert("params"@, params).insert("id"@, id),
    )
}

/// A request object has the four members `jsonrpc`, `method`, `params` and
/// `id`, each with the value it was built from, and no other member.
pub proof fn lemma_request_members(method: Seq<char>, params: Json, id: Json)
    ensures
        ({
            let doc = request_json(method, params, id);
            &&& doc.has_member("jsonrpc"@) && doc.member("jsonrpc"@) == Json::String(
                JSON_RPC_VERSION@,
            )
            &&& doc.has_member("method"@) && doc.member("method"@) == Json::String(method)
            &&& doc.has_member("params"@) && doc.member("params"@) == params
            &&& doc.has_member("id"@) && doc.member("id"@) == id
            &&& forall|name: Seq<char>|
                doc.has_member(name) ==> name == "jsonrpc"@ || name == "method"@ || name
                    == "params"@ || name == "id"@
        }),
{
    reveal_strlit("jsonrpc");
    reveal_strlit("method");
    reveal_strlit("params");
    reveal_strlit("id");
    assert("jsonrpc"@.len() == 7 && "method"@.len() == 6 && "params"@.len() == 6 && "id"@.len()
        == 2);
    assert("method"@[0] != "params"@[0]);
}

/// Builds a request object from parameters and an identifier that are JSON
/// values already.
pub fn request_value(method: &str, params: Value, id: Value) -> (v: Value)
    ensures
        json_of(v) == request_json(method@, json_of(params), json_of(id)),
{
    let mut members: JsonObject = serde_json::Map::new();
    members.insert("jsonrpc".to_owned(), json_string(JSON_RPC_VERSION.to_owned()));
    members.insert("method".to_owned(), json_string(method.to_owned()));
    members.insert("params".to_owned(), params);
    members.insert("id".to_owned(), id);
    json_object(members)
}

/// Builds the request object for a call of `method` with the parameters
/// `params` under the identifier `id`.
pub fn build_request(method: &str, params: &Params, id: &Id) -> (v: Value)
    ensures
        json_of(v) == request_json(method@, params.json(), id.json()),
{
    request_value(method, params.to_value(), id.to_value())
}

} // verus!
