//! A JSON document as the danmaku parser reads it: strings, arrays and
//! objects are kept; a number is kept as its integer value when it is an
//! integer that fits in 64 signed bits.

use vstd::prelude::*;
use vstd::string::StringExecFns;

verus! {

/// A decoded JSON value. Object members keep the order in which the decoder
/// hands them out; each key occurs once.
#[derive(Debug)]
pub enum Json {
    Null,
    Bool(bool),
    Number(Option<i64>),
    Str(String),
    Array(Vec<Json>),
    Object(Vec<(String, Json)>),
}

/// What `serde_json` decodes from `bytes` (as a `serde_json::Value`, carried
/// over into [`Json`]), or `None` where the bytes are not one JSON document.
pub uninterp spec fn json_document(bytes: Seq<u8>) -> Option<Json>;

#[verifier::external_type_specification]
#[verifier::external_body]
pub struct ExJsonValue(serde_json::Value);

/// Decodes one JSON document with `serde_json::from_slice::<serde_json::Value>`.
/// Trusted: the result is what `serde_json` decodes from these bytes (named,
/// not stated: JSON's grammar is `serde_json`'s), and `None` on any decoding
/// error.
#[verifier::external_body]
pub fn decode_json(bytes: &[u8]) -> (r: Option<Json>)
    ensures
        r == json_document(bytes@),
{
    serde_json::from_slice::<serde_json::Value>(bytes).ok().map(json_from_value)
}

/// Carries a `serde_json::Value` over into [`Json`], variant by variant;
/// the conversion half of [`decode_json`], with nothing claimed of its own.
#[verifier::external_body]
fn json_from_value(value: serde_json::Value) -> Json {
    match value {
        serde_json::Value::Null => Json::Null,
        serde_json::Value::Bool(b) => Json::Bool(b),
        serde_json::Value::Number(n) => Json::Number(n.as_i64()),
        serde_json::Value::String(s) => Json::Str(s),
        serde_json::Value::Array(items) => Json::Array(items.into_iter().map(json_from_value).collect()),
        serde_json::Value::Object(map) => Json::Object(
            map.into_iter().map(|(k, v)| (k, json_from_value(v))).collect(),
        ),
    }
}

/// The value of the first member named `key` among `entries`.
pub open spec fn first_member(entries: Seq<(String, Json)>, key: Seq<char>) -> Option<Json>
    decreases entries.len(),
{
    if entries.len() == 0 {
        None
    } else if entries[0].0@ == key {
        Some(entries[0].1)
    } else {
        first_member(entries.drop_first(), key)
    }
}

/// `v[key]` where `v` is an object (`serde_json::Value::get` with a string key).
pub open spec fn member(v: Json, key: Seq<char>) -> Option<Json> {
    match v {
        Json::Object(entries) => first_member(entries@, key),
        _ => None,
    }
}

/// `v[i]` where `v` is an array (`serde_json::Value::get` with an index).
pub open spec fn item(v: Json, i: int) -> Option<Json> {
    match v {
        Json::Array(items) => if 0 <= i < items@.len() {
            Some(items@[i])
        } else {
            None
        },
        _ => None,
    }
}

/// The text of `v` where it is a string.
pub open spec fn text_of(v: Option<Json>) -> Option<Seq<char>> {
    match v {
        Some(Json::Str(s)) => Some(s@),
        _ => None,
    }
}

proof fn lemma_first_member_step(entries: Seq<(String, Json)>, key: Seq<char>, i: int)
    requires
        0 <= i < entries.len(),
        forall|k: int| 0 <= k < i ==> (#[trigger] entries[k]).0@ != key,
    ensures
        first_member(entries, key) == first_member(entries.subrange(i, entries.len() as int), key),
    decreases i,
{
    if i > 0 {
        lemma_first_member_step(entries.drop_first(), key, i - 1);
        assert(entries.drop_first().subrange(i - 1, entries.drop_first().len() as int)
            =~= entries.subrange(i, entries.len() as int));
    } else {
        assert(entries.subrange(0, entries.len() as int) =~= entries);
    }
}

/// `value.get(key)` for a string key.
pub fn get_member<'a>(value: &'a Json, key: &str) -> (r: Option<&'a Json>)
    ensures
        match r {
            Some(found) => member(*value, key@) == Some(*found),
            None => member(*value, key@) is None,
        },
{
    match value {
        Json::Object(entries) => {
            let wanted = String::from_str(key);
            let n = entries.len();
            let mut i: usize = 0;
            while i < n
                invariant
                    n == entries@.len(),
                    wanted@ == key@,
                    member(*value, key@) == first_member(entries@, key@),
                    i <= n,
                    forall|k: int| 0 <= k < i ==> (#[trigger] entries@[k]).0@ != key@,
                decreases n - i,
            {
                if entries[i].0 == wanted {
                    proof {
                        lemma_first_member_step(entries@, key@, i as int);
                        assert(entries@.subrange(i as int, n as int)[0] == entries@[i as int]);
                        assert(entries@[i as int].0@ == key@);
                        assert(first_member(entries@, key@) == Some(entries@[i as int].1));
                    }
                    return Some(&entries[i].1);
                }
                i = i + 1;
            }
            proof {
                assert forall|j: int| 0 <= j <= n implies first_member(
                    entries@.subrange(j, n as int),
                    key@,
                ) is None by {
                    lemma_no_member(entries@, key@, j);
                }
                assert(entries@.subrange(0, n as int) =~= entries@);
            }
            None
        },
        _ => None,
    }
}

proof fn lemma_no_member(entries: Seq<(String, Json)>, key: Seq<char>, j: int)
    requires
        0 <= j <= entries.len(),
        forall|k: int| 0 <= k < entries.len() ==> (#[trigger] entries[k]).0@ != key,
    ensures
        first_member(entries.subrange(j, entries.len() as int), key) is None,
    decreases entries.len() - j,
{
    let s = entries.subrange(j, entries.len() as int);
    if j < entries.len() {
        lemma_no_member(entries, key, j + 1);
        assert(s.drop_first() =~= entries.subrange(j + 1, entries.len() as int));
        assert(s[0] == entries[j]);
    }
}

/// `value.get(index)` for an array index.
pub fn get_item(value: &Json, index: usize) -> (r: Option<&Json>)
    ensures
        match r {
            Some(found) => item(*value, index as int) == Some(*found),
            None => item(*value, index as int) is None,
        },
{
    match value {
        Json::Array(items) => if index < items.len() {
            Some(&items[index])
        } else {
            None
        },
        _ => None,
    }
}

/// `value.as_str()`.
pub fn as_text(value: &Json) -> (r: Option<&String>)
    ensures
        match r {
            Some(s) => text_of(Some(*value)) == Some(s@),
            None => text_of(Some(*value)) is None,
        },
{
    match value {
        Json::Str(s) => Some(s),
        _ => None,
    }
}

} // verus!
