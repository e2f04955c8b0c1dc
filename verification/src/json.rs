//! A plain JSON tree and key lookup over object entries. Turning response
//! text into this tree is the one job delegated to a JSON library; every
//! rule about what the tree means for batches is stated and proved here.
use crate::text::str_eq;
use vstd::prelude::*;

verus! {

/// A decoded JSON document. A number is held as its signed 64-bit value
/// when it is one, and otherwise as its decimal text.
pub enum JsonValue {
    Null,
    Bool(bool),
    Int(i64),
    Num(String),
    Str(String),
    Arr(Vec<JsonValue>),
    Obj(Vec<(String, JsonValue)>),
}

/// Object entries with their keys abstracted to character sequences.
pub open spec fn entry_views(es: Seq<(String, JsonValue)>) -> Seq<(Seq<char>, JsonValue)> {
    es.map_values(|p: (String, JsonValue)| (p.0@, p.1))
}

/// The value of the first entry with the given key, if any.
pub open spec fn entry_lookup(es: Seq<(Seq<char>, JsonValue)>, key: Seq<char>) -> Option<
    JsonValue,
>
    decreases es.len(),
{
    if es.len() == 0 {
        Option::None
    } else if es[0].0 == key {
        Option::Some(es[0].1)
    } else {
        entry_lookup(es.drop_first(), key)
    }
}

/// First entry of an object with the given key.
pub fn obj_get<'a>(es: &'a Vec<(String, JsonValue)>, key: &str) -> (r: Option<&'a JsonValue>)
    ensures
        match r {
            Option::Some(v) => entry_lookup(entry_views(es@), key@) == Option::Some(*v),
            Option::None => entry_lookup(entry_views(es@), key@) is None,
        },
{
    let mut i: usize = 0;
    proof {
        assert(entry_views(es@).skip(0) =~= entry_views(es@));
    }
    while i < es.len()
        invariant
            0 <= i <= es@.len(),
            entry_lookup(entry_views(es@), key@) == entry_lookup(
                entry_views(es@).skip(i as int),
                key@,
            ),
        decreases es@.len() - i,
    {
        let p = &es[i];
        if str_eq(p.0.as_str(), key) {
            proof {
                assert(entry_views(es@).skip(i as int)[0] == (es@[i as int].0@, es@[i as int].1));
            }
            return Some(&p.1);
        }
        proof {
            assert(entry_views(es@).skip(i as int)[0] == (es@[i as int].0@, es@[i as int].1));
            assert(entry_views(es@).skip(i as int).drop_first() =~= entry_views(es@).skip(
                i as int + 1,
            ));
        }
        i += 1;
    }
    proof {
        assert(entry_views(es@).skip(es@.len() as int) =~= Seq::<(Seq<char>, JsonValue)>::empty());
    }
    None
}

#[verifier::external_type_specification]
#[verifier::external_body]
pub struct ExSerdeValue(serde_json::Value);

/// The tree that the JSON text denotes, absent when the text is not JSON.
pub uninterp spec fn json_of(s: Seq<char>) -> Option<JsonValue>;

/// Relies on serde_json::Value: each variant is carried over one for one; a
/// number becomes its signed 64-bit value where Number::as_i64 gives one,
/// and its decimal text otherwise.
#[verifier::external_body]
fn from_serde_value(v: &serde_json::Value) -> JsonValue {
    match v {
        serde_json::Value::Null => JsonValue::Null,
        serde_json::Value::Bool(b) => JsonValue::Bool(*b),
        serde_json::Value::Number(n) => match n.as_i64() {
            Some(i) => JsonValue::Int(i),
            None => JsonValue::Num(n.to_string()),
        },
        serde_json::Value::String(t) => JsonValue::Str(t.clone()),
        serde_json::Value::Array(a) => JsonValue::Arr(a.iter().map(from_serde_value).collect()),
        serde_json::Value::Object(m) => JsonValue::Obj(
            m.iter().map(|(k, w)| (k.clone(), from_serde_value(w))).collect(),
        ),
    }
}

/// Relies on serde_json::from_str::<serde_json::Value>: it parses JSON text
/// by the JSON grammar, and the parsed tree depends on the text alone.
#[verifier::external_body]
pub fn parse_json_text(s: &str) -> (r: Option<JsonValue>)
    ensures
        r == json_of(s@),
{
    serde_json::from_str::<serde_json::Value>(s).ok().map(|v| from_serde_value(&v))
}

} // verus!
