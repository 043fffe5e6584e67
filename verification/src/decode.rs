//! Decoding a JSON document into a typed value.
//!
//! A type says which documents it accepts and which of its values a document
//! stands for; `decode` succeeds exactly on the accepted documents and returns
//! the value that the document stands for.

use serde_json::Value;
use vstd::prelude::*;

use crate::json::{entries_of, json_of, jsons_of, Json, JsonObject};

verus! {

/// A type that can be read from a JSON document.
pub trait Decode: Sized {
    /// Whether `doc` can be decoded into this type.
    spec fn accepts(doc: Json) -> bool;

    /// Whether `self` is the value that `doc` stands for.
    spec fn represents(&self, doc: Json) -> bool;

    /// Decodes the document that `v` holds. On failure the error says what
    /// was expected.
    fn decode(v: &Value) -> (r: Result<Self, String>)
        ensures
            r is Ok <==> Self::accepts(json_of(*v)),
            r matches Ok(x) ==> x.represents(json_of(*v)),
    ;
}

/// Any document is itself an untyped value.
impl Decode for Value {
    open spec fn accepts(doc: Json) -> bool {
        true
    }

    open spec fn represents(&self, doc: Json) -> bool {
        json_of(*self) == doc
    }

    fn decode(v: &Value) -> (r: Result<Self, String>) {
        Ok(v.clone())
    }
}

impl Decode for bool {
    open spec fn accepts(doc: Json) -> bool {
        doc is Bool
    }

    open spec fn represents(&self, doc: Json) -> bool {
        doc == Json::Bool(*self)
    }

    fn decode(v: &Value) -> (r: Result<Self, String>) {
        match v.as_bool() {
            Some(b) => Ok(b),
            None => Err("expected a boolean".to_owned()),
        }
    }
}

impl Decode for i64 {
    open spec fn accepts(doc: Json) -> bool {
        doc.as_integer() matches Some(n) && i64::MIN <= n <= i64::MAX
    }

    open spec fn represents(&self, doc: Json) -> bool {
        doc == Json::integer(*self as int)
    }

    fn decode(v: &Value) -> (r: Result<Self, String>) {
        match v.as_i64() {
            Some(n) => Ok(n),
            None => Err("expected a 64-bit signed integer".to_owned()),
        }
    }
}

impl Decode for u64 {
    open spec fn accepts(doc: Json) -> bool {
        doc.as_integer() matches Some(n) && 0 <= n <= u64::MAX
    }

    open spec fn represents(&self, doc: Json) -> bool {
        doc == Json::integer(*self as int)
    }

    fn decode(v: &Value) -> (r: Result<Self, String>) {
        match v.as_u64() {
            Some(n) => Ok(n),
            None => Err("expected a 64-bit unsigned integer".to_owned()),
        }
    }
}

impl Decode for i32 {
    open spec fn accepts(doc: Json) -> bool {
        doc.as_integer() matches Some(n) && i32::MIN <= n <= i32::MAX
    }

    open spec fn represents(&self, doc: Json) -> bool {
        doc == Json::integer(*self as int)
    }

    fn decode(v: &Value) -> (r: Result<Self, String>) {
        match v.as_i64() {
            Some(n) if -2147483648 <= n && n <= 2147483647 => Ok(n as i32),
            _ => Err("expected a 32-bit signed integer".to_owned()),
        }
    }
}

impl Decode for String {
    open spec fn accepts(doc: Json) -> bool {
        doc is String
    }

    open spec fn represents(&self, doc: Json) -> bool {
        doc == Json::String(self@)
    }

    fn decode(v: &Value) -> (r: Result<Self, String>) {
        match v.as_str() {
            Some(s) => Ok(s.to_owned()),
            None => Err("expected a string".to_owned()),
        }
    }
}

/// `null` is the absent value; any other document must be a `T`.
impl<T: Decode> Decode for Option<T> {
    open spec fn accepts(doc: Json) -> bool {
        doc is Null || T::accepts(doc)
    }

    open spec fn represents(&self, doc: Json) -> bool {
        match *self {
            None => doc is Null,
            Some(x) => !(doc is Null) && x.represents(doc),
        }
    }

    fn decode(v: &Value) -> (r: Result<Self, String>) {
        if v.is_null() {
            Ok(None)
        } else {
            match T::decode(v) {
                Ok(x) => Ok(Some(x)),
                Err(detail) => Err(detail),
            }
        }
    }
}

/// An array whose items are all of type `T`, in order.
impl<T: Decode> Decode for Vec<T> {
    open spec fn accepts(doc: Json) -> bool {
        doc matches Json::Array(items) && forall|i: int|
            0 <= i < items.len() ==> T::accepts(#[trigger] items[i])
    }

    open spec fn represents(&self, doc: Json) -> bool {
        doc matches Json::Array(items) && self@.len() == items.len() && forall|i: int|
            0 <= i < items.len() ==> (#[trigger] self@[i]).represents(items[i])
    }

    fn decode(v: &Value) -> (r: Result<Self, String>) {
        let source = match v.as_array() {
            Some(a) => a,
            None => {
                return Err("expected an array".to_owned());
            },
        };
        let ghost items = jsons_of(source@);
        let mut decoded: Vec<T> = Vec::new();
        let mut k: usize = 0;
        while k < source.len()
            invariant
                k <= source.len(),
                json_of(*v) == Json::Array(items),
                items == jsons_of(source@),
                decoded@.len() == k,
                forall|i: int| 0 <= i < k ==> T::accepts(#[trigger] items[i]),
                forall|i: int| 0 <= i < k ==> (#[trigger] decoded@[i]).represents(items[i]),
            decreases source.len() - k,
        {
            match T::decode(&source[k]) {
                Ok(x) => {
                    decoded.push(x);
                },
                Err(detail) => {
                    assert(!T::accepts(json_of(*v)->Array_0[k as int]));
                    return Err(detail);
                },
            }
            k += 1;
        }
        Ok(decoded)
    }
}

/// An array of exactly one item of type `T`.
impl<T: Decode> Decode for (T,) {
    open spec fn accepts(doc: Json) -> bool {
        doc matches Json::Array(items) && items.len() == 1 && T::accepts(items[0])
    }

    open spec fn represents(&self, doc: Json) -> bool {
        doc matches Json::Array(items) && items.len() == 1 && self.0.represents(items[0])
    }

    fn decode(v: &Value) -> (r: Result<Self, String>) {
        match v.as_array() {
            Some(source) if source.len() == 1 => {
                assert(jsons_of(source@)[0] == json_of(source@[0]));
                match T::decode(&source[0]) {
                    Ok(x) => Ok((x,)),
                    Err(detail) => Err(detail),
                }
            },
            _ => Err("expected an array of one item".to_owned()),
        }
    }
}

/// An object, with all its members.
impl Decode for JsonObject {
    open spec fn accepts(doc: Json) -> bool {
        doc is Object
    }

    open spec fn represents(&self, doc: Json) -> bool {
        doc == Json::Object(entries_of(*self))
    }

    fn decode(v: &Value) -> (r: Result<Self, String>) {
        match v.as_object() {
            Some(members) => Ok(members.clone()),
            None => Err("expected an object".to_owned()),
        }
    }
}

} // verus!
