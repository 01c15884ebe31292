//! Reading JSON documents.
//!
//! Parsing is `serde_json`'s work. This module states what the library relies
//! on when it walks a parsed [`serde_json::Value`], and builds the verified
//! field accessors of the schema decoders on top of that.

use vstd::prelude::*;
use crate::text::same_text;
use crate::views::text_view;

verus! {

/// `serde_json::Value`, a parsed JSON value. What one holds is read through
/// the functions specified below and nowhere else.
#[verifier::external_type_specification]
#[verifier::external_body]
pub struct ExValue(serde_json::Value);

/// `serde_json::Error`, of which nothing is read.
#[verifier::external_type_specification]
#[verifier::external_body]
pub struct ExError(serde_json::Error);

/// The value that `serde_json::from_str` reads from a text; `None` where
/// it turns the text down as no JSON document.
pub uninterp spec fn parsed(text: Seq<char>) -> Option<serde_json::Value>;

/// What a JSON value holds, one level deep.
pub enum Shape {
    /// JSON's `null`.
    Null,
    /// A string, with its characters.
    Text(Seq<char>),
    /// An array, with its elements in order.
    Array(Seq<serde_json::Value>),
    /// An object, with its members as key and value pairs in the order in
    /// which the object's map walks them.
    Object(Seq<(Seq<char>, serde_json::Value)>),
    /// A boolean or a number.
    Other,
}

/// What a `serde_json::Value` holds: which variant it is, and the contents
/// of that variant.
pub uninterp spec fn shape_of(v: serde_json::Value) -> Shape;

/// The characters of a JSON string; `None` for every other kind of value.
pub open spec fn text_of(v: serde_json::Value) -> Option<Seq<char>> {
    match shape_of(v) {
        Shape::Text(text) => Some(text),
        _ => None,
    }
}

/// The elements of a JSON array; `None` for every other kind of value.
pub open spec fn items_of(v: serde_json::Value) -> Option<Seq<serde_json::Value>> {
    match shape_of(v) {
        Shape::Array(items) => Some(items),
        _ => None,
    }
}

/// The members of a JSON object; `None` for every other kind of value.
pub open spec fn members_of(v: serde_json::Value) -> Option<Seq<(Seq<char>, serde_json::Value)>> {
    match shape_of(v) {
        Shape::Object(entries) => Some(entries),
        _ => None,
    }
}

/// Whether the value is JSON's `null`.
pub open spec fn null_value(v: serde_json::Value) -> bool {
    shape_of(v) is Null
}

/// `serde_json::from_str`, called for a `Value`. Nothing is claimed of
/// which texts it accepts nor of the value it builds, only that both depend
/// on the text alone.
#[verifier::external_body]
pub(crate) fn parse_value(text: &str) -> (r: Result<serde_json::Value, serde_json::Error>)
    ensures
        r is Ok <==> parsed(text@) is Some,
        r matches Ok(v) ==> parsed(text@) == Some(v),
{
    serde_json::from_str::<serde_json::Value>(text)
}

/// `Value::as_str` hands out the string of a `Value::String` and `None` for
/// any other variant.
pub assume_specification[ serde_json::Value::as_str ](v: &serde_json::Value) -> (r: Option<&str>)
    ensures
        r is Some <==> shape_of(*v) is Text,
        r matches Some(s) ==> shape_of(*v) == Shape::Text(s@),
;

/// `Value::as_array` hands out the vector of a `Value::Array` and `None` for
/// any other variant.
pub assume_specification[ serde_json::Value::as_array ](v: &serde_json::Value) -> (r: Option<
    &Vec<serde_json::Value>,
>)
    ensures
        r is Some <==> shape_of(*v) is Array,
        r matches Some(a) ==> shape_of(*v) == Shape::Array(a@),
;

/// `Value::is_null` tells `Value::Null` from the other variants.
pub assume_specification[ serde_json::Value::is_null ](v: &serde_json::Value) -> (b: bool)
    ensures
        b == (shape_of(*v) is Null),
;

/// `Value::as_object` followed by `Map::iter`: `None` unless the value is a
/// `Value::Object`, else every entry of its map, in the map's own order, as
/// references into the value. The map holds each key once.
#[verifier::external_body]
pub(crate) fn members<'a>(v: &'a serde_json::Value) -> (r: Option<
    Vec<(&'a String, &'a serde_json::Value)>,
>)
    ensures
        r is Some <==> shape_of(*v) is Object,
        r matches Some(entries) ==> shape_of(*v) == Shape::Object(member_views(entries@)),
        r matches Some(entries) ==> distinct_keys(member_views(entries@)),
{
    match v.as_object() {
        Some(map) => Some(map.iter().collect()),
        None => None,
    }
}

/// No key occurs twice among the entries.
pub open spec fn distinct_keys(entries: Seq<(Seq<char>, serde_json::Value)>) -> bool {
    forall|i: int, j: int| 0 <= i < j < entries.len() ==> entries[i].0 != entries[j].0
}

/// Entries as the specification sees them: each key by its characters.
pub open spec fn member_views(entries: Seq<(&String, &serde_json::Value)>) -> Seq<
    (Seq<char>, serde_json::Value),
> {
    entries.map_values(|e: (&String, &serde_json::Value)| (e.0@, *e.1))
}

/// Why a document was turned down.
#[derive(Debug, Clone, Copy, PartialEq, Eq, Structural)]
pub enum ParseError {
    /// The text is not a JSON document: the parser turned it down.
    Syntax,
    /// The document is JSON but breaks the schema: a required field is
    /// missing, or a field holds a value of the wrong type.
    Schema,
}

/// The entries of an object, borrowed from the value that holds them.
pub type Members<'a> = Vec<(&'a String, &'a serde_json::Value)>;

/// The value stored under a key: that of the first entry with the key.
pub open spec fn lookup(entries: Seq<(Seq<char>, serde_json::Value)>, key: Seq<char>) -> Option<
    serde_json::Value,
>
    decreases entries.len(),
{
    if entries.len() == 0 {
        None
    } else if entries[0].0 == key {
        Some(entries[0].1)
    } else {
        lookup(entries.drop_first(), key)
    }
}

/// A member under another key changes nothing about what is found under
/// `key`, wherever among the entries it stands. This is why fields that a
/// schema does not name are ignored.
pub proof fn lookup_ignores_other_keys(
    entries: Seq<(Seq<char>, serde_json::Value)>,
    key: Seq<char>,
    at: int,
    other_key: Seq<char>,
    other_value: serde_json::Value,
)
    requires
        0 <= at <= entries.len(),
        other_key != key,
    ensures
        lookup(entries.insert(at, (other_key, other_value)), key) == lookup(entries, key),
    decreases entries.len(),
{
    let extended = entries.insert(at, (other_key, other_value));
    if at == 0 {
        assert(extended.drop_first() =~= entries);
    } else {
        assert(extended[0] == entries[0]);
        assert(extended.drop_first() =~= entries.drop_first().insert(
            at - 1,
            (other_key, other_value),
        ));
        lookup_ignores_other_keys(entries.drop_first(), key, at - 1, other_key, other_value);
    }
}

/// A required string field: `None` where the key is missing or holds
/// anything but a string.
pub open spec fn required_text(entries: Seq<(Seq<char>, serde_json::Value)>, key: Seq<char>)
    -> Option<Seq<char>> {
    match lookup(entries, key) {
        Some(v) => text_of(v),
        None => None,
    }
}

/// An optional string field: `Some(None)` where the key is missing or holds
/// `null`, `Some(Some(..))` where it holds a string, and `None` where it
/// holds a value of any other type.
pub open spec fn optional_text(entries: Seq<(Seq<char>, serde_json::Value)>, key: Seq<char>)
    -> Option<Option<Seq<char>>> {
    match lookup(entries, key) {
        None => Some(None),
        Some(v) => if null_value(v) {
            Some(None)
        } else {
            match text_of(v) {
                Some(t) => Some(Some(t)),
                None => None,
            }
        },
    }
}

/// A required array field: `None` where the key is missing or holds
/// anything but an array.
pub open spec fn required_items(entries: Seq<(Seq<char>, serde_json::Value)>, key: Seq<char>)
    -> Option<Seq<serde_json::Value>> {
    match lookup(entries, key) {
        Some(v) => items_of(v),
        None => None,
    }
}

/// Decodes every element with `f`; `None` as soon as one element is
/// turned down.
pub open spec fn all_decoded<T>(
    items: Seq<serde_json::Value>,
    f: spec_fn(serde_json::Value) -> Option<T>,
) -> Option<Seq<T>> {
    if forall|i: int| 0 <= i < items.len() ==> (#[trigger] f(items[i])) is Some {
        Some(Seq::new(items.len(), |i: int| f(items[i])->0))
    } else {
        None
    }
}

/// Finds the value stored under a key.
pub fn find<'a>(entries: &Members<'a>, key: &str) -> (r: Option<&'a serde_json::Value>)
    ensures
        r is Some <==> lookup(member_views(entries@), key@) is Some,
        r matches Some(v) ==> lookup(member_views(entries@), key@) == Some(*v),
{
    let mut i: usize = 0;
    assert(member_views(entries@).skip(0) =~= member_views(entries@));
    while i < entries.len()
        invariant
            i <= entries.len(),
            lookup(member_views(entries@), key@) == lookup(
                member_views(entries@).skip(i as int),
                key@,
            ),
        decreases entries.len() - i,
    {
        let ghost rest = member_views(entries@).skip(i as int);
        assert(rest[0] == member_views(entries@)[i as int]);
        assert(rest.drop_first() =~= member_views(entries@).skip(i + 1));
        if same_text(entries[i].0.as_str(), key) {
            return Some(entries[i].1);
        }
        i += 1;
    }
    None
}

/// Reads a required string field.
pub fn required_string(entries: &Members<'_>, key: &str) -> (r: Option<String>)
    ensures
        text_view(r) == required_text(member_views(entries@), key@),
{
    match find(entries, key) {
        Some(v) => match v.as_str() {
            Some(s) => Some(s.to_owned()),
            None => None,
        },
        None => None,
    }
}

/// Reads an optional string field.
pub fn optional_string(entries: &Members<'_>, key: &str) -> (r: Option<Option<String>>)
    ensures
        r is Some <==> optional_text(member_views(entries@), key@) is Some,
        r matches Some(o) ==> optional_text(member_views(entries@), key@) == Some(text_view(o)),
{
    match find(entries, key) {
        None => Some(None),
        Some(v) => {
            if v.is_null() {
                Some(None)
            } else {
                match v.as_str() {
                    Some(s) => Some(Some(s.to_owned())),
                    None => None,
                }
            }
        },
    }
}

/// Reads a required array field.
pub fn required_array<'a>(entries: &Members<'a>, key: &str) -> (r: Option<
    &'a Vec<serde_json::Value>,
>)
    ensures
        r is Some <==> required_items(member_views(entries@), key@) is Some,
        r matches Some(a) ==> required_items(member_views(entries@), key@) == Some(a@),
{
    match find(entries, key) {
        Some(v) => v.as_array(),
        None => None,
    }
}

} // verus!
