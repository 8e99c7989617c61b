//! The field-level serialization contract: a `Serializer` turns a value into
//! a document value and merges a document value back into an existing object.
//!
//! Decoding is a best-effort merge: a document value of the wrong shape
//! leaves the target unchanged, and is indistinguishable from an absent one.

use vstd::prelude::*;
use crate::json::{Json, JsonV};

verus! {

/// A type that round-trips through the JSON-like document value.
///
/// `serialize` never fails; `deserialize` updates an existing object in
/// place and silently drops an update whose document value has the wrong
/// shape, so that a sparse or partially malformed document merges into
/// whatever state the object already carries.
pub trait Serializer: View + Sized {
    /// The document value that `serialize` produces from an object.
    spec fn ser_spec(v: Self::V) -> JsonV;

    /// The object after a best-effort structural decode of `j` into `v`.
    spec fn merge_spec(v: Self::V, j: JsonV) -> Self::V;

    /// The compiled-in default state.
    spec fn default_spec() -> Self::V;

    /// Serialize to a document value.
    fn serialize(&self) -> (r: Json)
        ensures
            r@ == Self::ser_spec(self@),
    ;

    /// Update the existing object from a document value.
    fn deserialize(&mut self, json: Json)
        ensures
            final(self)@ == Self::merge_spec(old(self)@, json@),
    ;

    /// Create an object from defaults and a document value.
    fn deserialize_new(json: Json) -> (r: Self)
        ensures
            r@ == Self::merge_spec(Self::default_spec(), json@),
    ;
}

/// How one declared field merges: an absent document field keeps the prior
/// value, a present one merges by the field type's own rule.
pub open spec fn field_merge<T: Serializer>(v: T::V, o: Option<JsonV>) -> T::V {
    match o {
        Option::Some(j) => T::merge_spec(v, j),
        Option::None => v,
    }
}

impl Serializer for bool {
    open spec fn ser_spec(v: bool) -> JsonV {
        JsonV::Bool(v)
    }

    open spec fn merge_spec(v: bool, j: JsonV) -> bool {
        match j {
            JsonV::Bool(b) => b,
            _ => v,
        }
    }

    open spec fn default_spec() -> bool {
        false
    }

    fn serialize(&self) -> (r: Json) {
        Json::Bool(*self)
    }

    fn deserialize(&mut self, json: Json) {
        match json {
            Json::Bool(b) => {
                *self = b;
            },
            _ => {},
        }
    }

    fn deserialize_new(json: Json) -> (r: Self) {
        let mut v = false;
        v.deserialize(json);
        v
    }
}

impl Serializer for i64 {
    open spec fn ser_spec(v: i64) -> JsonV {
        JsonV::Int(v as int)
    }

    open spec fn merge_spec(v: i64, j: JsonV) -> i64 {
        match j {
            JsonV::Int(i) => if i64::MIN <= i <= i64::MAX {
                i as i64
            } else {
                v
            },
            _ => v,
        }
    }

    open spec fn default_spec() -> i64 {
        0
    }

    fn serialize(&self) -> (r: Json) {
        Json::Int(*self)
    }

    fn deserialize(&mut self, json: Json) {
        match json {
            Json::Int(i) => {
                *self = i;
            },
            _ => {},
        }
    }

    fn deserialize_new(json: Json) -> (r: Self) {
        let mut v: i64 = 0;
        v.deserialize(json);
        v
    }
}

impl Serializer for String {
    open spec fn ser_spec(v: Seq<char>) -> JsonV {
        JsonV::Str(v)
    }

    open spec fn merge_spec(v: Seq<char>, j: JsonV) -> Seq<char> {
        match j {
            JsonV::Str(s) => s,
            _ => v,
        }
    }

    open spec fn default_spec() -> Seq<char> {
        Seq::empty()
    }

    fn serialize(&self) -> (r: Json) {
        Json::Str(self.clone())
    }

    fn deserialize(&mut self, json: Json) {
        match json {
            Json::Str(s) => {
                *self = s;
            },
            _ => {},
        }
    }

    fn deserialize_new(json: Json) -> (r: Self) {
        let mut v = String::new();
        v.deserialize(json);
        v
    }
}

} // verus!
