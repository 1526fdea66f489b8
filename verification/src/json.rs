//! JSON documents: the value that a text writes, and the lookups that the
//! decoders of this crate are made of.

use vstd::prelude::*;
use crate::text::text_of;

verus! {

/// A JSON value. Of a number only what the decoders read is kept: its value
/// where it is a whole number from 0 to 2^64 - 1.
#[derive(Debug, PartialEq, Eq)]
pub enum Json {
    Null,
    Bool(bool),
    Number(Option<u64>),
    Text(String),
    Array(Vec<Json>),
    Object(Vec<(String, Json)>),
}

/// The mathematical value of [`Json`].
pub enum JsonValue {
    Null,
    Bool(bool),
    Number(Option<u64>),
    Text(Seq<char>),
    Array(Seq<JsonValue>),
    Object(Seq<(Seq<char>, JsonValue)>),
}

/// The mathematical value of a document.
pub open spec fn value_of(j: Json) -> JsonValue
    decreases j,
{
    match j {
        Json::Null => JsonValue::Null,
        Json::Bool(b) => JsonValue::Bool(b),
        Json::Number(n) => JsonValue::Number(n),
        Json::Text(s) => JsonValue::Text(s@),
        Json::Array(items) => JsonValue::Array(
            Seq::new(
                items@.len(),
                |i: int|
                    if 0 <= i < items@.len() {
                        value_of(items@[i])
                    } else {
                        JsonValue::Null
                    },
            ),
        ),
        Json::Object(entries) => JsonValue::Object(
            Seq::new(
                entries@.len(),
                |i: int|
                    if 0 <= i < entries@.len() {
                        (entries@[i].0@, value_of(entries@[i].1))
                    } else {
                        (Seq::empty(), JsonValue::Null)
                    },
            ),
        ),
    }
}

impl View for Json {
    type V = JsonValue;

    open spec fn view(&self) -> JsonValue {
        value_of(*self)
    }
}

/// The value of an optional document.
pub open spec fn json_view(j: Option<Json>) -> Option<JsonValue> {
    match j {
        Some(v) => Some(v@),
        None => None,
    }
}

/// The value that `text` writes as one JSON document, as
/// `serde_json::from_str` reads it; `None` where it writes none.
pub uninterp spec fn json_document(text: Seq<char>) -> Option<JsonValue>;

/// The type `serde_json::Value`: a JSON value as the crate that reads it
/// holds it. Nothing is known of a value of it.
#[verifier::external_type_specification]
#[verifier::external_body]
pub struct ExValue(serde_json::Value);

/// Copies a `serde_json::Value` into a [`Json`], variant by variant; of a
/// number it keeps what `serde_json::Number::as_u64` returns.
#[verifier::external_body]
fn json_of_value(value: &serde_json::Value) -> (r: Json) {
    match value {
        serde_json::Value::Null => Json::Null,
        serde_json::Value::Bool(b) => Json::Bool(*b),
        serde_json::Value::Number(n) => Json::Number(n.as_u64()),
        serde_json::Value::String(s) => Json::Text(s.clone()),
        serde_json::Value::Array(a) => Json::Array(a.iter().map(json_of_value).collect()),
        serde_json::Value::Object(o) => Json::Object(
            o.iter().map(|(k, v)| (k.clone(), json_of_value(v))).collect(),
        ),
    }
}

/// Believed of `serde_json::from_str`, read into a `serde_json::Value`: what
/// it returns depends on the text alone. The members of an object come with
/// distinct names.
#[verifier::external_body]
pub(crate) fn parse_json(text: &str) -> (r: Option<Json>)
    ensures
        json_view(r) == json_document(text@),
{
    match serde_json::from_str::<serde_json::Value>(text) {
        Ok(value) => Some(json_of_value(&value)),
        Err(_) => None,
    }
}

/// The JSON string that writes `s`, quotes included, as
/// `serde_json::to_string` writes it.
pub uninterp spec fn json_text(s: Seq<char>) -> Seq<char>;

/// Believed of `serde_json::to_string`, given a string: what it returns
/// depends on the string alone. It does not fail on a string.
#[verifier::external_body]
pub(crate) fn quote(s: &str) -> (r: String)
    ensures
        r@ == json_text(s@),
{
    serde_json::to_string(s).unwrap_or_default()
}

/// The JSON that writes an optional text: `null` for nothing.
pub open spec fn optional_json_text(s: Option<Seq<char>>) -> Seq<char> {
    match s {
        Some(text) => json_text(text),
        None => "null"@,
    }
}

/// The JSON object of two optional texts. `first` and `second` are the
/// names of the members as the object writes them, quotes and colon
/// included.
pub open spec fn pair_json(
    first: Seq<char>,
    a: Option<Seq<char>>,
    second: Seq<char>,
    b: Option<Seq<char>>,
) -> Seq<char> {
    "{"@ + first + optional_json_text(a) + ","@ + second + optional_json_text(b) + "}"@
}

/// Appends the JSON string that writes `s`.
pub fn push_text(out: &mut String, s: &str)
    ensures
        final(out)@ == old(out)@ + json_text(s@),
{
    let text = quote(s);
    out.append(text.as_str());
}

/// Appends the JSON that writes an optional text.
pub fn push_optional_text(out: &mut String, s: &Option<String>)
    ensures
        final(out)@ == old(out)@ + optional_json_text(text_of(*s)),
{
    match s {
        Some(text) => push_text(out, text.as_str()),
        None => out.append("null"),
    }
}

/// Writing `key` and `value` after `done` is writing all three after
/// `start`.
pub proof fn lemma_written(start: Seq<char>, done: Seq<char>, key: Seq<char>, value: Seq<char>)
    ensures
        ((start + done) + key) + value == start + ((done + key) + value),
{
    assert(((start + done) + key) + value =~= start + ((done + key) + value));
}

/// Writing `b` after `a` after `start` is writing both after `start`.
pub proof fn lemma_written_first(start: Seq<char>, a: Seq<char>, b: Seq<char>)
    ensures
        (start + a) + b == start + (a + b),
{
    assert((start + a) + b =~= start + (a + b));
}

/// Appends the JSON object of two optional texts.
pub fn push_pair(
    out: &mut String,
    first: &str,
    a: &Option<String>,
    second: &str,
    b: &Option<String>,
)
    ensures
        final(out)@ == old(out)@ + pair_json(first@, text_of(*a), second@, text_of(*b)),
{
    let ghost start = out@;
    let ghost x = optional_json_text(text_of(*a));
    let ghost y = optional_json_text(text_of(*b));
    out.append("{");
    out.append(first);
    push_optional_text(out, a);
    proof {
        lemma_written(start, Seq::empty(), "{"@, first@);
        assert(Seq::<char>::empty() + "{"@ =~= "{"@);
        lemma_written_first(start, "{"@ + first@, x);
    }
    let ghost done = "{"@ + first@ + x;
    out.append(",");
    out.append(second);
    proof {
        lemma_written(start, done, ","@, second@);
    }
    push_optional_text(out, b);
    out.append("}");
    proof {
        lemma_written(start, done + ","@ + second@, y, "}"@);
    }
}

/// The value of the first member of `entries` named `key`.
pub open spec fn member(entries: Seq<(Seq<char>, JsonValue)>, key: Seq<char>) -> Option<
    JsonValue,
>
    decreases entries.len(),
{
    if entries.len() == 0 {
        None
    } else if entries[0].0 == key {
        Some(entries[0].1)
    } else {
        member(entries.drop_first(), key)
    }
}

/// The field of a record that is written either as an object, where the
/// field goes by its name, or as an array of exactly `width` elements,
/// where it goes by its position.
pub open spec fn field(v: JsonValue, key: Seq<char>, index: int, width: int) -> Option<JsonValue> {
    match v {
        JsonValue::Object(entries) => member(entries, key),
        JsonValue::Array(items) => if items.len() == width && 0 <= index < width {
            Some(items[index])
        } else {
            None
        },
        _ => None,
    }
}

/// Whether `v` has the shape of a record of `width` fields: an object, or an
/// array of exactly `width` elements.
pub open spec fn is_record(v: JsonValue, width: int) -> bool {
    match v {
        JsonValue::Object(_) => true,
        JsonValue::Array(items) => items.len() == width,
        _ => false,
    }
}

impl Json {
    /// The value of the first member named `key`, where this is an object
    /// that has one.
    pub fn member(&self, key: &str) -> (r: Option<&Json>)
        ensures
            match r {
                Some(v) => self@ matches JsonValue::Object(entries) && member(entries, key@)
                    == Some(v@),
                None => self@ matches JsonValue::Object(entries) ==> member(entries, key@)
                    is None,
            },
    {
        match self {
            Json::Object(entries) => {
                let wanted = key.to_owned();
                let ghost all = self@->Object_0;
                let mut i: usize = 0;
                assert(all.skip(0) =~= all);
                while i < entries.len()
                    invariant
                        i <= entries@.len(),
                        wanted@ == key@,
                        self@ == JsonValue::Object(all),
                        all.len() == entries@.len(),
                        forall|j: int|
                            0 <= j < entries@.len() ==> all[j] == (
                                entries@[j].0@,
                                entries@[j].1@,
                            ),
                        member(all, key@) == member(all.skip(i as int), key@),
                    decreases entries@.len() - i,
                {
                    if entries[i].0 == wanted {
                        assert(all.skip(i as int)[0] == all[i as int]);
                        assert(member(all.skip(i as int), key@) == Some(entries@[i as int].1@));
                        return Some(&entries[i].1);
                    }
                    assert(all.skip(i as int).drop_first() =~= all.skip(i + 1));
                    assert(all.skip(i as int)[0] == all[i as int]);
                    i += 1;
                }
                None
            },
            _ => None,
        }
    }

    /// The field of a record of `width` fields, by name in an object and by
    /// position in an array.
    pub fn field(&self, key: &str, index: usize, width: usize) -> (r: Option<&Json>)
        ensures
            match r {
                Some(v) => field(self@, key@, index as int, width as int) == Some(v@),
                None => field(self@, key@, index as int, width as int) is None,
            },
    {
        match self {
            Json::Object(_) => self.member(key),
            Json::Array(items) => if items.len() == width && index < width {
                Some(&items[index])
            } else {
                None
            },
            _ => None,
        }
    }

    /// Whether this is an object, or an array of exactly `width` elements.
    pub fn is_record(&self, width: usize) -> (r: bool)
        ensures
            r == is_record(self@, width as int),
    {
        match self {
            Json::Object(_) => true,
            Json::Array(items) => items.len() == width,
            _ => false,
        }
    }
}

} // verus!
