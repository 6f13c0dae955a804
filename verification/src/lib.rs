//! Tool schemas and dispatch for exposing callable operations to an agent.
//!
//! A host program describes each operation it offers — its name, a human
//! readable description, and a typed parameter list — and registers it in a
//! [`tools::Tools`] registry.  Incoming call requests are then resolved by
//! name and answered one by one, in request order.
//!
//! The schema tag of every parameter type comes from the [`Jsonify`]
//! protocol: string-like types answer `"string"`, the integer widths answer
//! `"number"`, `bool` answers `"boolean"`, and sequences and maps build their
//! tag from the tags of their element types.

use std::collections::HashMap;
use vstd::prelude::*;
use vstd::string::StringExecFns;

pub mod dispatch;
pub mod keyed;
pub mod object;
pub mod tools;

verus! {

/// The schema-tag protocol: every type that can stand as a tool parameter or
/// as an object field answers a fixed, compact tag naming its shape.
pub trait Jsonify {
    /// The tag this type answers, as a mathematical sequence of characters.
    spec fn schema_tag() -> Seq<char>;

    /// Produce the schema tag; it is a pure function of the type alone.
    fn jsonify() -> (r: String)
        ensures
            r@ == Self::schema_tag(),
    ;
}

impl Jsonify for String {
    open spec fn schema_tag() -> Seq<char> {
        "string"@
    }

    fn jsonify() -> (r: String) {
        "string".to_owned()
    }
}

impl<'a> Jsonify for &'a str {
    open spec fn schema_tag() -> Seq<char> {
        "string"@
    }

    fn jsonify() -> (r: String) {
        "string".to_owned()
    }
}

impl Jsonify for char {
    open spec fn schema_tag() -> Seq<char> {
        "string"@
    }

    fn jsonify() -> (r: String) {
        "string".to_owned()
    }
}

impl Jsonify for bool {
    open spec fn schema_tag() -> Seq<char> {
        "boolean"@
    }

    fn jsonify() -> (r: String) {
        "boolean".to_owned()
    }
}

impl Jsonify for i8 {
    open spec fn schema_tag() -> Seq<char> {
        "number"@
    }

    fn jsonify() -> (r: String) {
        "number".to_owned()
    }
}

impl Jsonify for i16 {
    open spec fn schema_tag() -> Seq<char> {
        "number"@
    }

    fn jsonify() -> (r: String) {
        "number".to_owned()
    }
}

impl Jsonify for i32 {
    open spec fn schema_tag() -> Seq<char> {
        "number"@
    }

    fn jsonify() -> (r: String) {
        "number".to_owned()
    }
}

impl Jsonify for i64 {
    open spec fn schema_tag() -> Seq<char> {
        "number"@
    }

    fn jsonify() -> (r: String) {
        "number".to_owned()
    }
}

impl Jsonify for i128 {
    open spec fn schema_tag() -> Seq<char> {
        "number"@
    }

    fn jsonify() -> (r: String) {
        "number".to_owned()
    }
}

impl Jsonify for u8 {
    open spec fn schema_tag() -> Seq<char> {
        "number"@
    }

    fn jsonify() -> (r: String) {
        "number".to_owned()
    }
}

impl Jsonify for u16 {
    open spec fn schema_tag() -> Seq<char> {
        "number"@
    }

    fn jsonify() -> (r: String) {
        "number".to_owned()
    }
}

impl Jsonify for u32 {
    open spec fn schema_tag() -> Seq<char> {
        "number"@
    }

    fn jsonify() -> (r: String) {
        "number".to_owned()
    }
}

impl Jsonify for u64 {
    open spec fn schema_tag() -> Seq<char> {
        "number"@
    }

    fn jsonify() -> (r: String) {
        "number".to_owned()
    }
}

impl Jsonify for u128 {
    open spec fn schema_tag() -> Seq<char> {
        "number"@
    }

    fn jsonify() -> (r: String) {
        "number".to_owned()
    }
}

impl<T: Jsonify> Jsonify for Vec<T> {
    open spec fn schema_tag() -> Seq<char> {
        T::schema_tag() + "[]"@
    }

    fn jsonify() -> (r: String) {
        T::jsonify().concat("[]")
    }
}

impl<K: Jsonify, V: Jsonify> Jsonify for HashMap<K, V> {
    open spec fn schema_tag() -> Seq<char> {
        "Map<"@ + K::schema_tag() + ", "@ + V::schema_tag() + ">"@
    }

    fn jsonify() -> (r: String) {
        let r = String::from_str("Map<");
        let r = r.concat(K::jsonify().as_str());
        let r = r.concat(", ");
        let r = r.concat(V::jsonify().as_str());
        let r = r.concat(">");
        r
    }
}

} // verus!
