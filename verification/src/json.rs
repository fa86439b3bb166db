//! A small model of JSON documents.
//!
//! The wire protocol exchanges JSON objects.  Parsing and rendering are done
//! by `serde_json` behind a narrow trusted boundary; everything that reads or
//! builds a document works on the [`Json`] type below and is verified against
//! its mathematical view.

use vstd::prelude::*;

verus! {

/// A JSON document.
///
/// Numbers that are not unsigned 64-bit integers (floats, negative values)
/// are kept only as the marker [`Json::NumOther`]: no field this library
/// reads may hold one, but a document containing one elsewhere still parses.
pub enum Json {
    Null,
    Bool(bool),
    UInt(u64),
    NumOther,
    Str(String),
    Arr(Vec<Json>),
    Obj(Vec<(String, Json)>),
}

/// The mathematical shape of a document: strings are character sequences,
/// arrays and objects are sequences.
#[verifier::ext_equal]
pub ghost enum JsonView {
    Null,
    Bool(bool),
    UInt(u64),
    NumOther,
    Str(Seq<char>),
    Arr(Seq<JsonView>),
    Obj(Seq<(Seq<char>, JsonView)>),
}

/// The view of an array's element list.
pub open spec fn arr_view(a: Vec<Json>) -> Seq<JsonView>
    decreases a,
{
    Seq::new(
        a@.len(),
        |i: int|
            if 0 <= i < a@.len() {
                a@[i]@
            } else {
                JsonView::Null
            },
    )
}

/// The view of an object's entry list.
pub open spec fn entries_view(entries: Vec<(String, Json)>) -> Seq<(Seq<char>, JsonView)>
    decreases entries,
{
    Seq::new(
        entries@.len(),
        |i: int|
            if 0 <= i < entries@.len() {
                (entries@[i].0@, entries@[i].1@)
            } else {
                (Seq::empty(), JsonView::Null)
            },
    )
}

impl View for Json {
    type V = JsonView;

    open spec fn view(&self) -> JsonView
        decreases self,
    {
        match self {
            Json::Null => JsonView::Null,
            Json::Bool(b) => JsonView::Bool(*b),
            Json::UInt(n) => JsonView::UInt(*n),
            Json::NumOther => JsonView::NumOther,
            Json::Str(s) => JsonView::Str(s@),
            Json::Arr(a) => JsonView::Arr(arr_view(*a)),
            Json::Obj(es) => JsonView::Obj(entries_view(*es)),
        }
    }
}

/// The first entry of `entries` whose key is `key`, if any.
///
/// Documents handed over by the parser never repeat a key, so "first" is
/// merely a tie-break that keeps the function total.
pub open spec fn lookup(entries: Seq<(Seq<char>, JsonView)>, key: Seq<char>) -> Option<JsonView>
    decreases entries.len(),
{
    if entries.len() == 0 {
        None
    } else if entries[0].0 == key {
        Some(entries[0].1)
    } else {
        lookup(entries.drop_first(), key)
    }
}

/// Finds the entry named `key` in an object's entry list.
pub fn obj_get<'a>(entries: &'a Vec<(String, Json)>, key: &String) -> (r: Option<&'a Json>)
    ensures
        match r {
            Some(j) => lookup(entries_view(*entries), key@) == Some(j@),
            None => lookup(entries_view(*entries), key@) is None,
        },
{
    let ghost all = entries_view(*entries);
    proof {
        assert(all.skip(0) =~= all);
    }
    let mut i: usize = 0;
    while i < entries.len()
        invariant
            i <= entries@.len(),
            all == entries_view(*entries),
            lookup(all, key@) == lookup(all.skip(i as int), key@),
        decreases entries@.len() - i,
    {
        proof {
            assert(all.skip(i as int).drop_first() =~= all.skip(i as int + 1));
        }
        if entries[i].0 == *key {
            return Some(&entries[i].1);
        }
        i += 1;
    }
    None
}

/// A required string field: present and a string, or a schema mismatch.
pub open spec fn spec_str_field(f: Option<JsonView>) -> Option<Seq<char>> {
    match f {
        Some(JsonView::Str(s)) => Some(s),
        _ => None,
    }
}

/// An optional string field: absent or null means none, a string means
/// itself, anything else is a schema mismatch.
pub open spec fn spec_opt_str_field(f: Option<JsonView>) -> Option<Option<Seq<char>>> {
    match f {
        None => Some(None),
        Some(JsonView::Null) => Some(None),
        Some(JsonView::Str(s)) => Some(Some(s)),
        Some(_) => None,
    }
}

/// A boolean field that defaults when absent: absent means `default`,
/// a boolean means itself, anything else is a schema mismatch.
pub open spec fn spec_bool_field(f: Option<JsonView>, default: bool) -> Option<bool> {
    match f {
        None => Some(default),
        Some(JsonView::Bool(b)) => Some(b),
        Some(_) => None,
    }
}

/// A required unsigned 64-bit number field.
pub open spec fn spec_u64_field(f: Option<JsonView>) -> Option<u64> {
    match f {
        Some(JsonView::UInt(n)) => Some(n),
        _ => None,
    }
}

/// A required 8-bit number field: a number above 255 is a schema mismatch.
pub open spec fn spec_u8_field(f: Option<JsonView>) -> Option<u8> {
    match f {
        Some(JsonView::UInt(n)) => if n <= 255 {
            Some(n as u8)
        } else {
            None
        },
        _ => None,
    }
}

/// An optional 8-bit number field: absent or null means none.
pub open spec fn spec_opt_u8_field(f: Option<JsonView>) -> Option<Option<u8>> {
    match f {
        None => Some(None),
        Some(JsonView::Null) => Some(None),
        Some(JsonView::UInt(n)) => if n <= 255 {
            Some(Some(n as u8))
        } else {
            None
        },
        Some(_) => None,
    }
}

/// Reads a required string field out of an object's entry list.
pub fn get_str(entries: &Vec<(String, Json)>, key: &String) -> (r: Option<String>)
    ensures
        match r {
            Some(s) => spec_str_field(lookup(entries_view(*entries), key@)) == Some(s@),
            None => spec_str_field(lookup(entries_view(*entries), key@)) is None,
        },
{
    match obj_get(entries, key) {
        Some(v) => match v {
            Json::Str(s) => Some(s.clone()),
            _ => None,
        },
        None => None,
    }
}

/// Reads a required unsigned 64-bit number field out of an object's entry
/// list.
pub fn get_u64(entries: &Vec<(String, Json)>, key: &String) -> (r: Option<u64>)
    ensures
        match r {
            Some(n) => spec_u64_field(lookup(entries_view(*entries), key@)) == Some(n),
            None => spec_u64_field(lookup(entries_view(*entries), key@)) is None,
        },
{
    match obj_get(entries, key) {
        Some(v) => match v {
            Json::UInt(n) => Some(*n),
            _ => None,
        },
        None => None,
    }
}

/// Reads a required 8-bit number field out of an object's entry list.
pub fn get_u8(entries: &Vec<(String, Json)>, key: &String) -> (r: Option<u8>)
    ensures
        match r {
            Some(n) => spec_u8_field(lookup(entries_view(*entries), key@)) == Some(n),
            None => spec_u8_field(lookup(entries_view(*entries), key@)) is None,
        },
{
    match obj_get(entries, key) {
        Some(v) => match v {
            Json::UInt(n) => if *n <= 255 {
                Some(*n as u8)
            } else {
                None
            },
            _ => None,
        },
        None => None,
    }
}

/// A lookup stops at a matching head entry.
pub proof fn lemma_lookup_hit(entries: Seq<(Seq<char>, JsonView)>, key: Seq<char>)
    requires
        entries.len() > 0,
        entries[0].0 == key,
    ensures
        lookup(entries, key) == Some(entries[0].1),
{
}

/// A lookup walks past a head entry whose key differs.
pub proof fn lemma_lookup_miss(entries: Seq<(Seq<char>, JsonView)>, key: Seq<char>)
    requires
        entries.len() > 0,
        entries[0].0 != key,
    ensures
        lookup(entries, key) == lookup(entries.drop_first(), key),
{
}

/// The document a given text parses to, as `serde_json` reads it and
/// [`Json`] carries it; `None` where the text is not valid JSON.
pub uninterp spec fn json_of(s: Seq<char>) -> Option<JsonView>;

/// The compact text `serde_json` renders a document into.
pub uninterp spec fn json_text_of(v: JsonView) -> Seq<char>;

#[verifier::external_type_specification]
#[verifier::external_body]
pub struct ExValue(serde_json::Value);

/// Relies on `serde_json::from_str::<serde_json::Value>`: whether a text is
/// valid JSON, and the document it holds, are functions of the text alone.
#[verifier::external_body]
pub(crate) fn parse_json(s: &str) -> (r: Option<Json>)
    ensures
        match r {
            Some(j) => json_of(s@) == Some(j@),
            None => json_of(s@) is None,
        },
{
    match serde_json::from_str::<serde_json::Value>(s) {
        Ok(v) => Some(value_to_json(&v)),
        Err(_) => None,
    }
}

/// Carries a `serde_json` tree over into [`Json`], arm by arm; numbers that
/// do not fit `u64` become [`Json::NumOther`].  Part of the trusted parsing
/// boundary behind [`parse_json`]: nothing is proved about it.
#[verifier::external_body]
fn value_to_json(v: &serde_json::Value) -> Json {
    match v {
        serde_json::Value::Null => Json::Null,
        serde_json::Value::Bool(b) => Json::Bool(*b),
        serde_json::Value::Number(n) => n.as_u64().map_or(Json::NumOther, Json::UInt),
        serde_json::Value::String(s) => Json::Str(s.clone()),
        serde_json::Value::Array(a) => Json::Arr(a.iter().map(value_to_json).collect()),
        serde_json::Value::Object(m) => Json::Obj(
            m.iter().map(|(k, x)| (k.clone(), value_to_json(x))).collect(),
        ),
    }
}

/// Relies on `serde_json::Value::to_string`: the compact rendering depends
/// on the document's content alone.
#[verifier::external_body]
pub(crate) fn json_to_string(j: &Json) -> (r: String)
    ensures
        r@ == json_text_of(j@),
{
    json_to_value(j).to_string()
}

/// Carries a [`Json`] document over into a `serde_json` tree, arm by arm.
/// No built document holds [`Json::NumOther`]; it is sent to null.  Part of
/// the trusted rendering boundary behind [`json_to_string`].
#[verifier::external_body]
fn json_to_value(j: &Json) -> serde_json::Value {
    match j {
        Json::Null => serde_json::Value::Null,
        Json::Bool(b) => serde_json::Value::Bool(*b),
        Json::UInt(n) => serde_json::Value::Number(serde_json::Number::from(*n)),
        Json::NumOther => serde_json::Value::Null,
        Json::Str(s) => serde_json::Value::String(s.clone()),
        Json::Arr(a) => serde_json::Value::Array(a.iter().map(json_to_value).collect()),
        Json::Obj(es) => serde_json::Value::Object(
            es.iter().map(|(k, x)| (k.clone(), json_to_value(x))).collect(),
        ),
    }
}

} // verus!
