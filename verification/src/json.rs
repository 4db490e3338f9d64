//! JSON values of request bodies, and how one of them becomes the text
//! bound to a SQL parameter.

use vstd::prelude::*;
use vstd::string::StringExecFns;
use crate::text::{join, join_texts, strings, text_of};

verus! {

/// `serde_json::Value`. Nothing is known of a value but what the functions
/// below say of it.
#[verifier::external_type_specification]
#[verifier::external_body]
pub struct ExValue(serde_json::Value);

/// One level of a JSON value: which of the six kinds it is, and what it
/// holds directly.
pub enum JsonShape {
    Null,
    Bool(bool),
    Number,
    Text(Seq<char>),
    Array(Seq<serde_json::Value>),
    Object(Map<Seq<char>, serde_json::Value>),
}

/// What a `serde_json::Value` holds.
pub uninterp spec fn json_shape(v: serde_json::Value) -> JsonShape;

/// The compact JSON text of a `serde_json::Value`, as its `Display` writes it.
pub uninterp spec fn json_text(v: serde_json::Value) -> Seq<char>;

/// A JSON value taken apart one level, borrowing what it holds.
pub enum JsonKind<'a> {
    Null,
    Bool(bool),
    Number,
    Text(&'a str),
    Array(&'a Vec<serde_json::Value>),
    Object,
}

impl<'a> JsonKind<'a> {
    /// Whether this is the kind of a value of the given shape, with the
    /// same contents.
    pub open spec fn describes(self, shape: JsonShape) -> bool {
        match self {
            JsonKind::Null => shape is Null,
            JsonKind::Bool(b) => shape == JsonShape::Bool(b),
            JsonKind::Number => shape is Number,
            JsonKind::Text(s) => shape == JsonShape::Text(s@),
            JsonKind::Array(items) => shape == JsonShape::Array(items@),
            JsonKind::Object => shape is Object,
        }
    }
}

/// Tells the variants of `serde_json::Value` apart. The result is the
/// variant of `v`, with the boolean, the string or the elements it holds.
#[verifier::external_body]
pub(crate) fn json_kind<'a>(v: &'a serde_json::Value) -> (k: JsonKind<'a>)
    ensures
        k.describes(json_shape(*v)),
{
    match v {
        serde_json::Value::Null => JsonKind::Null,
        serde_json::Value::Bool(b) => JsonKind::Bool(*b),
        serde_json::Value::Number(_) => JsonKind::Number,
        serde_json::Value::String(s) => JsonKind::Text(s.as_str()),
        serde_json::Value::Array(items) => JsonKind::Array(items),
        serde_json::Value::Object(_) => JsonKind::Object,
    }
}

/// `serde_json::Value::get` with a string key: the member of that name if
/// `v` is an object that has one, and nothing otherwise.
#[verifier::external_body]
pub(crate) fn json_member<'a>(v: &'a serde_json::Value, key: &str) -> (r: Option<&'a serde_json::Value>)
    ensures
        match r {
            Some(m) => json_shape(*v) matches JsonShape::Object(members)
                && members.contains_key(key@) && members[key@] == *m,
            None => !(json_shape(*v) matches JsonShape::Object(members) && members.contains_key(
                key@,
            )),
        },
{
    v.get(key)
}

/// `to_string` of a `serde_json::Value`: its compact JSON text.
#[verifier::external_body]
fn json_render(v: &serde_json::Value) -> (r: String)
    ensures
        r@ == json_text(*v),
{
    v.to_string()
}

/// Whether a JSON value is an object.
pub open spec fn is_object(v: serde_json::Value) -> bool {
    json_shape(v) is Object
}

/// Whether the object `v` has a member called `key`.
pub open spec fn has_member(v: serde_json::Value, key: Seq<char>) -> bool {
    json_shape(v) matches JsonShape::Object(members) && members.contains_key(key)
}

/// The member of the object `v` called `key`.
pub open spec fn member(v: serde_json::Value, key: Seq<char>) -> serde_json::Value
    recommends
        has_member(v, key),
{
    json_shape(v)->Object_0[key]
}

/// The string that the object `v` has under `key`, if it has a member of
/// that name and the member is a string.
pub open spec fn text_member(v: serde_json::Value, key: Seq<char>) -> Option<Seq<char>> {
    if has_member(v, key) {
        match json_shape(member(v, key)) {
            JsonShape::Text(s) => Some(s),
            _ => None,
        }
    } else {
        None
    }
}

/// The string that `v` has under `key`.
pub fn member_text<'a>(v: &'a serde_json::Value, key: &str) -> (r: Option<&'a str>)
    ensures
        match r {
            Some(s) => text_member(*v, key@) == Some(s@),
            None => text_member(*v, key@) is None,
        },
{
    match json_member(v, key) {
        Some(m) => match json_kind(m) {
            JsonKind::Text(s) => Some(s),
            _ => None,
        },
        None => None,
    }
}

/// The strings among the elements of a JSON array, in order.
pub open spec fn string_items(items: Seq<serde_json::Value>) -> Seq<Seq<char>> {
    items.filter(|v: serde_json::Value| json_shape(v) is Text).map_values(
        |v: serde_json::Value| json_shape(v)->Text_0,
    )
}

/// The text bound to a SQL parameter for a JSON value, or nothing where
/// the parameter is bound as SQL NULL. Null has no text. A string is bound
/// as it is; a boolean as `true` or `false`; an array as an array literal
/// of its string elements, the others dropped; a number and an object as
/// their JSON text.
pub open spec fn sql_text(v: serde_json::Value) -> Option<Seq<char>> {
    match json_shape(v) {
        JsonShape::Null => None,
        JsonShape::Text(s) => Some(s),
        JsonShape::Bool(b) => Some(
            if b {
                "true"@
            } else {
                "false"@
            },
        ),
        JsonShape::Array(items) => Some("{"@ + join(string_items(items), ","@) + "}"@),
        JsonShape::Number => Some(json_text(v)),
        JsonShape::Object(_) => Some(json_text(v)),
    }
}

/// Renders a JSON value as the text to bind to a SQL parameter; nothing
/// for null, which is bound as SQL NULL.
pub fn json_to_sql_string(val: &serde_json::Value) -> (r: Option<String>)
    ensures
        text_of(r) == sql_text(*val),
{
    match json_kind(val) {
        JsonKind::Text(s) => Some(String::from_str(s)),
        JsonKind::Number => Some(json_render(val)),
        JsonKind::Bool(b) => if b {
            Some(String::from_str("true"))
        } else {
            Some(String::from_str("false"))
        },
        JsonKind::Null => None,
        JsonKind::Array(arr) => {
            let mut items: Vec<String> = Vec::new();
            let mut i: usize = 0;
            proof {
                reveal(Seq::filter);
                assert(arr@.take(0) =~= Seq::<serde_json::Value>::empty());
                assert(strings(items@) =~= string_items(arr@.take(0)));
            }
            while i < arr.len()
                invariant
                    i <= arr@.len(),
                    strings(items@) == string_items(arr@.take(i as int)),
                decreases arr@.len() - i,
            {
                let ghost before = items@;
                proof {
                    let upto = arr@.take(i as int);
                    assert(arr@.take(i + 1) =~= upto.push(arr@[i as int]));
                    upto.lemma_filter_push(
                        arr@[i as int],
                        |v: serde_json::Value| json_shape(v) is Text,
                    );
                }
                match json_kind(&arr[i]) {
                    JsonKind::Text(s) => {
                        items.push(String::from_str(s));
                        assert(strings(items@) =~= strings(before).push(s@));
                        assert(strings(items@) =~= string_items(arr@.take(i + 1)));
                    },
                    _ => {},
                }
                i += 1;
            }
            assert(arr@.take(i as int) =~= arr@);
            let mut out = String::from_str("{");
            let joined = join_texts(&items, ",");
            out.append(joined.as_str());
            out.append("}");
            Some(out)
        },
        JsonKind::Object => Some(json_render(val)),
    }
}

} // verus!
