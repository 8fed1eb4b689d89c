//! JSON documents read one level deep, and the structures of the WebDriver wire format
//! read from them: a document is an object (its members), an array (its elements), a
//! string (its decoded text) or another value (`null`, a boolean or a number). Nested
//! values are kept as compact JSON text and read again where a structure needs them.

use crate::webdriver::capabilities::{text_pairs, texts};
use vstd::prelude::*;
use vstd::string::*;

verus! {

/// A JSON document read one level deep.
#[derive(Debug, Clone, PartialEq, Eq)]
pub enum JsonShape {
    /// An object: its members (name, value as compact JSON), in serde_json's member order
    Object(Vec<(String, String)>),
    /// An array: its elements as compact JSON
    Array(Vec<String>),
    /// A string: its decoded text
    Str(String),
    /// `null`, a boolean or a number: its compact JSON text
    Other(String),
}

pub enum JsonShapeView {
    Object(Seq<(Seq<char>, Seq<char>)>),
    Array(Seq<Seq<char>>),
    Str(Seq<char>),
    Other(Seq<char>),
}

impl View for JsonShape {
    type V = JsonShapeView;

    open spec fn view(&self) -> JsonShapeView {
        match self {
            JsonShape::Object(m) => JsonShapeView::Object(text_pairs(m@)),
            JsonShape::Array(a) => JsonShapeView::Array(texts(a@)),
            JsonShape::Str(s) => JsonShapeView::Str(s@),
            JsonShape::Other(t) => JsonShapeView::Other(t@),
        }
    }
}

/// What `serde_json::from_slice` reads from bytes as a JSON value, shaped one level deep;
/// `None` where it refuses them.
pub uninterp spec fn json_shape(bytes: Seq<u8>) -> Option<JsonShapeView>;

/// What `serde_json::from_str` reads from a text as a JSON value, shaped one level deep;
/// `None` where it refuses it.
pub uninterp spec fn json_text_shape(text: Seq<char>) -> Option<JsonShapeView>;

/// Calls `serde_json::from_slice` into a `serde_json::Value` and converts the value: each
/// variant to its shape, nested values written back with the value's `Display` (compact
/// JSON). serde_json keeps the last of repeated object members. The result is only named.
#[verifier::external_body]
pub(crate) fn read_json(bytes: &[u8]) -> (r: Option<JsonShape>)
    ensures
        match r {
            Some(s) => json_shape(bytes@) == Some(s@),
            None => json_shape(bytes@) is None,
        },
{
    match serde_json::from_slice::<serde_json::Value>(bytes) {
        Ok(serde_json::Value::Object(m)) => Some(JsonShape::Object(m.into_iter().map(|(k, v)| (k, v.to_string())).collect())),
        Ok(serde_json::Value::Array(a)) => Some(JsonShape::Array(a.into_iter().map(|v| v.to_string()).collect())),
        Ok(serde_json::Value::String(s)) => Some(JsonShape::Str(s)),
        Ok(other) => Some(JsonShape::Other(other.to_string())),
        Err(_) => None,
    }
}

/// Calls `serde_json::from_str` into a `serde_json::Value` and converts the value as
/// `read_json` does. The result is only named.
#[verifier::external_body]
pub(crate) fn read_json_text(text: &str) -> (r: Option<JsonShape>)
    ensures
        match r {
            Some(s) => json_text_shape(text@) == Some(s@),
            None => json_text_shape(text@) is None,
        },
{
    match serde_json::from_str::<serde_json::Value>(text) {
        Ok(serde_json::Value::Object(m)) => Some(JsonShape::Object(m.into_iter().map(|(k, v)| (k, v.to_string())).collect())),
        Ok(serde_json::Value::Array(a)) => Some(JsonShape::Array(a.into_iter().map(|v| v.to_string()).collect())),
        Ok(serde_json::Value::String(s)) => Some(JsonShape::Str(s)),
        Ok(other) => Some(JsonShape::Other(other.to_string())),
        Err(_) => None,
    }
}

/// Value of the first member named `key`.
pub open spec fn member(members: Seq<(Seq<char>, Seq<char>)>, key: Seq<char>) -> Option<Seq<char>>
    decreases members.len(),
{
    if members.len() == 0 {
        None
    } else if members[0].0 == key {
        Some(members[0].1)
    } else {
        member(members.drop_first(), key)
    }
}

/// The value (as compact JSON) of the member named `key`, if there is one.
pub fn member_text(members: &Vec<(String, String)>, key: &str) -> (r: Option<String>)
    ensures
        opt_text_of(r) == member(text_pairs(members@), key@),
{
    let ghost m = text_pairs(members@);
    let mut i: usize = 0;
    assert(m.skip(0) =~= m);
    while i < members.len()
        invariant
            i <= members@.len(),
            m == text_pairs(members@),
            member(m, key@) == member(m.skip(i as int), key@),
        decreases members@.len() - i,
    {
        assert(m.skip(i as int)[0] == (members@[i as int].0@, members@[i as int].1@));
        if crate::text::text_equal(members[i].0.as_str(), key) {
            return Some(members[i].1.clone());
        }
        assert(m.skip(i as int).drop_first() =~= m.skip(i + 1));
        i = i + 1;
    }
    None
}

/// Characters of an optional string.
pub open spec fn opt_text_of(o: Option<String>) -> Option<Seq<char>> {
    match o {
        Some(s) => Some(s@),
        None => None,
    }
}

/// The fields of a structure with the given field names, as a derived serde_json reader
/// takes them: from an object, the member of each name (each must be present; other
/// members are ignored); from an array, its elements in field order (exactly as many as
/// there are fields). `None` for any other document or where a field is missing.
pub open spec fn struct_fields(shape: JsonShapeView, names: Seq<Seq<char>>) -> Option<Seq<Seq<char>>> {
    match shape {
        JsonShapeView::Object(members) => if forall|k: int| 0 <= k < names.len() ==> #[trigger] member(members, names[k]) is Some {
            Some(names.map_values(|n: Seq<char>| member(members, n)->Some_0))
        } else {
            None
        },
        JsonShapeView::Array(elements) => if elements.len() == names.len() {
            Some(elements)
        } else {
            None
        },
        _ => None,
    }
}

/// Reads the single field `name` of a structure (see `struct_fields`).
pub fn single_field(shape: JsonShape, name: &str) -> (r: Option<String>)
    ensures
        match struct_fields(shape@, seq![name@]) {
            Some(f) => r matches Some(t) && t@ == f[0],
            None => r is None,
        },
{
    match shape {
        JsonShape::Object(members) => {
            let r = member_text(&members, name);
            proof {
                let names = seq![name@];
                assert(names[0] == name@);
            }
            r
        },
        JsonShape::Array(elements) => {
            if elements.len() == 1 {
                Some(elements[0].clone())
            } else {
                None
            }
        },
        _ => None,
    }
}

/// Reads the two fields `first` and `second` of a structure (see `struct_fields`).
pub fn two_fields(shape: JsonShape, first: &str, second: &str) -> (r: Option<(String, String)>)
    ensures
        match struct_fields(shape@, seq![first@, second@]) {
            Some(f) => r matches Some((a, b)) && a@ == f[0] && b@ == f[1],
            None => r is None,
        },
{
    let ghost names = seq![first@, second@];
    assert(names[0] == first@ && names[1] == second@);
    match shape {
        JsonShape::Object(members) => {
            let a = member_text(&members, first);
            let b = member_text(&members, second);
            match (a, b) {
                (Some(a), Some(b)) => Some((a, b)),
                _ => None,
            }
        },
        JsonShape::Array(elements) => {
            if elements.len() == 2 {
                Some((elements[0].clone(), elements[1].clone()))
            } else {
                None
            }
        },
        _ => None,
    }
}

} // verus!
