//! A JSON document model with member lookup, and the bridge to `serde_json`.
use vstd::prelude::*;

verus! {

#[verifier::external_type_specification]
#[verifier::external_body]
pub struct ExJsonNumber(serde_json::Number);

#[verifier::external_type_specification]
#[verifier::external_body]
pub struct ExSerdeJsonValue(serde_json::Value);

#[verifier::external_type_specification]
#[verifier::external_body]
pub struct ExJsonError(serde_json::Error);

/// A JSON value. Object members keep the order in which they were written.
#[derive(Debug, PartialEq)]
pub enum JsonValue {
    Null,
    Bool(bool),
    Number(serde_json::Number),
    Str(String),
    Array(Vec<JsonValue>),
    Object(Vec<(String, JsonValue)>),
}

/// The value of the first member named `key` among `entries`.
pub open spec fn lookup(entries: Seq<(String, JsonValue)>, key: Seq<char>) -> Option<JsonValue>
    decreases entries.len(),
{
    if entries.len() == 0 {
        None
    } else if entries[0].0@ == key {
        Some(entries[0].1)
    } else {
        lookup(entries.drop_first(), key)
    }
}

/// The document that `serde_json::from_str` reads from `text`, or `None` where
/// `text` is not a JSON document.
pub uninterp spec fn json_parse(text: Seq<char>) -> Option<JsonValue>;

/// The text that `serde_json::to_string_pretty` writes for `v`.
pub uninterp spec fn json_pretty(v: JsonValue) -> Seq<char>;

impl JsonValue {
    /// The member `key` of an object (as `serde_json::Value::get` with a string key).
    pub open spec fn member(self, key: Seq<char>) -> Option<JsonValue> {
        match self {
            JsonValue::Object(entries) => lookup(entries@, key),
            _ => None,
        }
    }

    /// The member `key` where it is a string (as `get(key).and_then(Value::as_str)`).
    pub open spec fn str_member(self, key: Seq<char>) -> Option<String> {
        match self.member(key) {
            Some(JsonValue::Str(s)) => Some(s),
            _ => None,
        }
    }

    /// The member `key` where it is a boolean (as `get(key).and_then(Value::as_bool)`).
    pub open spec fn bool_member(self, key: Seq<char>) -> Option<bool> {
        match self.member(key) {
            Some(JsonValue::Bool(b)) => Some(b),
            _ => None,
        }
    }

    /// The member `key` of this value, if it is an object that has one.
    pub fn get(&self, key: &str) -> (r: Option<&JsonValue>)
        ensures
            match r {
                Some(v) => self.member(key@) == Some(*v),
                None => self.member(key@) is None,
            },
    {
        match self {
            JsonValue::Object(entries) => {
                let k = key.to_string();
                let mut i: usize = 0;
                assert(entries@.skip(0) =~= entries@);
                while i < entries.len()
                    invariant
                        i <= entries.len(),
                        k@ == key@,
                        self.member(key@) == lookup(entries@, key@),
                        lookup(entries@, key@) == lookup(entries@.skip(i as int), key@),
                    decreases entries.len() - i,
                {
                    assert(entries@.skip(i as int)[0] == entries@[i as int]);
                    if entries[i].0 == k {
                        assert(lookup(entries@.skip(i as int), key@) == Some(entries@[i as int].1));
                        return Some(&entries[i].1);
                    }
                    assert(entries@.skip(i as int).drop_first() =~= entries@.skip(i + 1));
                    i += 1;
                }
                None
            },
            _ => None,
        }
    }

    /// The member `key` where it is a string.
    pub fn get_str(&self, key: &str) -> (r: Option<String>)
        ensures
            r == self.str_member(key@),
    {
        match self.get(key) {
            Some(JsonValue::Str(s)) => Some(s.clone()),
            _ => None,
        }
    }

    /// The member `key` where it is a boolean.
    pub fn get_bool(&self, key: &str) -> (r: Option<bool>)
        ensures
            r == self.bool_member(key@),
    {
        match self.get(key) {
            Some(JsonValue::Bool(b)) => Some(*b),
            _ => None,
        }
    }

    /// Converts a `serde_json` value, member for member and element for element.
    #[verifier::external_body]
    fn from_serde(v: serde_json::Value) -> JsonValue {
        match v {
            serde_json::Value::Null => JsonValue::Null,
            serde_json::Value::Bool(b) => JsonValue::Bool(b),
            serde_json::Value::Number(n) => JsonValue::Number(n),
            serde_json::Value::String(s) => JsonValue::Str(s),
            serde_json::Value::Array(a) => JsonValue::Array(a.into_iter().map(JsonValue::from_serde).collect()),
            serde_json::Value::Object(m) => JsonValue::Object(
                m.into_iter().map(|(k, x)| (k, JsonValue::from_serde(x))).collect(),
            ),
        }
    }

    /// Converts to a `serde_json` value, member for member and element for element.
    #[verifier::external_body]
    fn to_serde(&self) -> serde_json::Value {
        match self {
            JsonValue::Null => serde_json::Value::Null,
            JsonValue::Bool(b) => serde_json::Value::Bool(*b),
            JsonValue::Number(n) => serde_json::Value::Number(n.clone()),
            JsonValue::Str(s) => serde_json::Value::String(s.clone()),
            JsonValue::Array(a) => serde_json::Value::Array(a.iter().map(JsonValue::to_serde).collect()),
            JsonValue::Object(m) => serde_json::Value::Object(
                m.iter().map(|(k, x)| (k.clone(), x.to_serde())).collect(),
            ),
        }
    }
}

/// Reads a JSON document with `serde_json::from_str`; `None` where the text is not JSON.
/// The contract names the result and claims nothing more of it.
#[verifier::external_body]
fn serde_parse(text: &str) -> (r: Option<JsonValue>)
    ensures
        r == json_parse(text@),
{
    serde_json::from_str::<serde_json::Value>(text).ok().map(JsonValue::from_serde)
}

/// Writes `v` with `serde_json::to_string_pretty`. The call succeeds: a
/// `serde_json::Value` has string keys only, its serialization fails only
/// where the writer does, and the writer is an in-memory buffer. What comes
/// out is named; nothing more is claimed of it.
#[verifier::external_body]
fn serde_pretty(v: &JsonValue) -> (r: Result<String, serde_json::Error>)
    ensures
        r is Ok,
        r matches Ok(s) ==> s@ == json_pretty(*v),
{
    serde_json::to_string_pretty(&v.to_serde())
}

/// The JSON document written in `text`, or `None` where it is not JSON.
pub fn parse_json(text: &str) -> (r: Option<JsonValue>)
    ensures
        r == json_parse(text@),
{
    serde_parse(text)
}

/// Why a document could not be written out.
#[derive(Clone, Debug, PartialEq)]
pub enum JsonWriteError {
    Serialize,
}

/// `v` as indented JSON text; writing a document always succeeds.
pub fn to_pretty_json(v: &JsonValue) -> (r: Result<String, JsonWriteError>)
    ensures
        r matches Ok(s) && s@ == json_pretty(*v),
{
    match serde_pretty(v) {
        Ok(s) => Ok(s),
        Err(_) => Err(JsonWriteError::Serialize),
    }
}

} // verus!
