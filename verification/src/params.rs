//! The parameters of a call: none, a list of positional values, or an object
//! of named values.

use serde_json::Value;
use vstd::prelude::*;

use crate::decode::Decode;
use crate::error::Error;
use crate::json::{entries_of, json_array, json_null, json_object, json_of, jsons_of, Json, JsonObject};

verus! {

/// The untyped parameters of a call.
#[derive(Debug, Clone)]
pub enum Params {
    /// No parameters.
    Null,
    /// Positional parameters, in order.
    Array(Vec<Value>),
    /// Named parameters.
    Object(JsonObject),
}

impl Params {
    /// The document that the parameters are sent as: `null`, an array, or an
    /// object.
    pub open spec fn json(&self) -> Json {
        match *self {
            Params::Null => Json::Null,
            Params::Array(items) => Json::Array(jsons_of(items@)),
            Params::Object(members) => Json::Object(entries_of(members)),
        }
    }

    /// Whether the parameters stand for "no parameters": none at all, or an
    /// empty list.
    pub open spec fn is_absent(&self) -> bool {
        match *self {
            Params::Null => true,
            Params::Array(items) => items@.len() == 0,
            Params::Object(_) => false,
        }
    }

    /// The parameters as a JSON value.
    pub fn to_value(&self) -> (v: Value)
        ensures
            json_of(v) == self.json(),
    {
        match self {
            Params::Null => json_null(),
            Params::Array(items) => {
                let copy = items.clone();
                assert(jsons_of(copy@) =~= jsons_of(items@));
                json_array(copy)
            },
            Params::Object(members) => json_object(members.clone()),
        }
    }

    /// Turns the parameters into a JSON value.
    pub fn into_value(self) -> (v: Value)
        ensures
            json_of(v) == self.json(),
    {
        match self {
            Params::Null => json_null(),
            Params::Array(items) => json_array(items),
            Params::Object(members) => json_object(members),
        }
    }

    /// Decodes the parameters into a value of type `D`. Succeeds exactly when
    /// `D` accepts the document of the parameters; any failure is
    /// `Error::InvalidParams`.
    pub fn parse<D: Decode>(self) -> (r: Result<D, Error>)
        ensures
            match r {
                Ok(x) => D::accepts(self.json()) && x.represents(self.json()),
                Err(e) => !D::accepts(self.json()) && e is InvalidParams,
            },
    {
        let value = self.into_value();
        match D::decode(&value) {
            Ok(x) => Ok(x),
            Err(detail) => Err(Error::InvalidParams(detail)),
        }
    }

    /// Checks that no parameters were given: succeeds for `Params::Null` and
    /// for an empty list, fails for anything else.
    pub fn expect_no_params(&self) -> (r: Result<(), Error>)
        ensures
            r is Ok <==> self.is_absent(),
            r matches Err(e) ==> e matches Error::InvalidParams(detail) && detail@
                == "No parameters were expected"@,
    {
        match self {
            Params::Null => Ok(()),
            Params::Array(items) if items.len() == 0 => Ok(()),
            _ => Err(Error::InvalidParams("No parameters were expected".to_owned())),
        }
    }

    /// Sending parameters and reading them back gives the same parameters:
    /// the document of `p` decodes, any parameters that it decodes to are of
    /// the same shape as `p` and hold the same documents, and `Params::Null`
    /// is sent as `null`.
    pub proof fn lemma_round_trip(p: Params, q: Params)
        ensures
            Params::accepts(p.json()),
            p.represents(p.json()),
            q.represents(p.json()) ==> q.json() == p.json() && (q is Null <==> p is Null) && (q is Array
                <==> p is Array) && (q is Object <==> p is Object),
            p is Null <==> p.json() == Json::Null,
    {
    }
}

/// Parameters are read from `null`, an array or an object.
impl Decode for Params {
    open spec fn accepts(doc: Json) -> bool {
        doc is Null || doc is Array || doc is Object
    }

    open spec fn represents(&self, doc: Json) -> bool {
        match doc {
            Json::Null => *self is Null,
            Json::Array(items) => *self matches Params::Array(a) && jsons_of(a@) == items,
            Json::Object(members) => *self matches Params::Object(m) && entries_of(m) == members,
            _ => false,
        }
    }

    fn decode(v: &Value) -> (r: Result<Self, String>) {
        if v.is_null() {
            return Ok(Params::Null);
        }
        if let Some(items) = v.as_array() {
            let copy = items.clone();
            assert(jsons_of(copy@) =~= jsons_of(items@));
            return Ok(Params::Array(copy));
        }
        match v.as_object() {
            Some(members) => Ok(Params::Object(members.clone())),
            None => Err("expected null, an array or an object".to_owned()),
        }
    }
}

/// The conversion is told by the document of its result: a value that holds
/// a given document is not unique as far as Verus knows.
impl vstd::std_specs::convert::FromSpecImpl<Params> for Value {
    open spec fn obeys_from_spec() -> bool {
        false
    }

    open spec fn from_spec(params: Params) -> Value {
        choose|v: Value| json_of(v) == params.json()
    }
}

impl From<Params> for Value {
    fn from(params: Params) -> (v: Value)
        ensures
            json_of(v) == params.json(),
    {
        params.into_value()
    }
}

} // verus!
