use vstd::prelude::*;

verus! {

#[verifier::external_type_specification]
#[verifier::external_body]
pub struct ExJsonError(serde_json::Error);

#[verifier::external_type_specification]
#[verifier::external_body]
pub struct ExJsonValue(serde_json::Value);

/// A JSON document, as far as this library reads it.
///
/// A number is kept as the integer it denotes when that fits in an `i64`,
/// and as `Number(None)` otherwise. The members of an object are in key
/// order, each key once.
#[derive(Debug)]
pub enum JsonValue {
    Null,
    Bool(bool),
    Number(Option<i64>),
    Str(String),
    Array(Vec<JsonValue>),
    Object(Vec<(String, JsonValue)>),
}

/// The document that a JSON text denotes, or `None` where the text is not
/// well-formed JSON.
pub uninterp spec fn json_of_text(text: Seq<char>) -> Option<JsonValue>;

/// Relies on `serde_json::from_str::<serde_json::Value>`: it parses the
/// whole text, and fails exactly where the text is not one JSON document.
#[verifier::external_body]
fn parse_value(text: &str) -> (r: Result<JsonValue, serde_json::Error>)
    ensures
        r is Ok <==> json_of_text(text@) is Some,
        r is Ok ==> json_of_text(text@) == Some(r->Ok_0),
{
    serde_json::from_str::<serde_json::Value>(text).map(value_into_json)
}

/// Relies on the variants of `serde_json::Value`: one arm per variant, each
/// moving its fields over, and on `serde_json::Number::as_i64`.
#[verifier::external_body]
fn value_into_json(v: serde_json::Value) -> JsonValue {
    match v {
        serde_json::Value::Null => JsonValue::Null,
        serde_json::Value::Bool(b) => JsonValue::Bool(b),
        serde_json::Value::Number(n) => JsonValue::Number(n.as_i64()),
        serde_json::Value::String(s) => JsonValue::Str(s),
        serde_json::Value::Array(a) => JsonValue::Array(a.into_iter().map(value_into_json).collect()),
        serde_json::Value::Object(m) => JsonValue::Object(
            m.into_iter().map(|(k, x)| (k, value_into_json(x))).collect(),
        ),
    }
}

/// Parses a JSON text into a document.
pub fn parse_json(text: &str) -> (r: Result<JsonValue, serde_json::Error>)
    ensures
        r is Ok <==> json_of_text(text@) is Some,
        r is Ok ==> json_of_text(text@) == Some(r->Ok_0),
{
    parse_value(text)
}

/// The value of the first member named `key`, if any.
pub open spec fn member(entries: Seq<(String, JsonValue)>, key: Seq<char>) -> Option<JsonValue>
    decreases entries.len(),
{
    if entries.len() == 0 {
        None
    } else if entries[0].0@ == key {
        Some(entries[0].1)
    } else {
        member(entries.subrange(1, entries.len() as int), key)
    }
}

/// The value of the member named `key` of an object; `None` where `v` is no
/// object or has no such member.
pub open spec fn field(v: JsonValue, key: Seq<char>) -> Option<JsonValue> {
    match v {
        JsonValue::Object(entries) => member(entries@, key),
        _ => None,
    }
}

/// The member named `key` of `v`, where `v` is an object that has one.
pub open spec fn at(v: Option<JsonValue>, key: Seq<char>) -> Option<JsonValue> {
    match v {
        Some(x) => field(x, key),
        None => None,
    }
}

/// The elements of `v`, if it is an array.
pub open spec fn array_of(v: Option<JsonValue>) -> Option<Seq<JsonValue>> {
    match v {
        Some(JsonValue::Array(xs)) => Some(xs@),
        _ => None,
    }
}

/// The string held by `v`, if it is a string.
pub open spec fn str_of(v: Option<JsonValue>) -> Option<Seq<char>> {
    match v {
        Some(JsonValue::Str(s)) => Some(s@),
        _ => None,
    }
}

impl JsonValue {
    /// The member named `key`, where `self` is an object that has one.
    pub fn get(&self, name: &str) -> (r: Option<&JsonValue>)
        ensures
            r is Some <==> field(*self, name@) is Some,
            r is Some ==> field(*self, name@) == Some(*r->Some_0),
    {
        let key = String::from_str(name);
        let key = &key;
        match self {
            JsonValue::Object(entries) => {
                let mut i: usize = 0;
                assert(entries@.subrange(0, entries@.len() as int) =~= entries@);
                while i < entries.len()
                    invariant
                        i <= entries@.len(),
                        key@ == name@,
                        field(*self, key@) == member(entries@, key@),
                        member(entries@, key@) == member(entries@.subrange(i as int, entries@.len() as int), key@),
                    decreases entries@.len() - i,
                {
                    let ghost rest = entries@.subrange(i as int, entries@.len() as int);
                    assert(rest[0] == entries@[i as int]);
                    if entries[i].0 == *key {
                        assert(member(rest, key@) == Some(rest[0].1));
                        return Some(&entries[i].1);
                    }
                    assert(rest.subrange(1, rest.len() as int) =~= entries@.subrange(i + 1, entries@.len() as int));
                    i = i + 1;
                }
                None
            },
            _ => None,
        }
    }

    /// A copy of the string held by the member named `name`.
    pub fn get_str(&self, name: &str) -> (r: Option<String>)
        ensures
            r is Some <==> str_of(field(*self, name@)) is Some,
            r is Some ==> str_of(field(*self, name@)) == Some(r->Some_0@),
    {
        match self.get(name) {
            Some(x) => match x.as_str() {
                Some(s) => Some(s.clone()),
                None => None,
            },
            None => None,
        }
    }

    /// The string that `self` holds, if it is a string.
    pub fn as_str(&self) -> (r: Option<&String>)
        ensures
            r is Some <==> str_of(Some(*self)) is Some,
            r is Some ==> str_of(Some(*self)) == Some(r->Some_0@),
    {
        match self {
            JsonValue::Str(s) => Some(s),
            _ => None,
        }
    }
}

} // verus!
