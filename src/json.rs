use vstd::prelude::*;

use crate::error::{ExtractionError, Field};

verus! {

/// A decoded JSON document.
#[derive(Debug)]
pub enum JsonValue {
    Null,
    Bool(bool),
    /// A number, in its decimal text form.
    Number(String),
    Str(String),
    Array(Vec<JsonValue>),
    /// The members of an object, each key once.
    Object(Vec<(String, JsonValue)>),
}

#[verifier::external_type_specification]
#[verifier::external_body]
pub struct ExJsonValue(serde_json::Value);

/// The document that a JSON text decodes to, if it decodes at all.
pub uninterp spec fn json_of(text: Seq<char>) -> Option<JsonValue>;

/// Relies on serde_json::from_str: decodes a JSON text, or fails, depending on
/// the text alone.
#[verifier::external_body]
pub(crate) fn parse_json(text: &str) -> (r: Option<JsonValue>)
    ensures
        r == json_of(text@),
{
    serde_json::from_str::<serde_json::Value>(text).ok().map(|v| tree_of(&v))
}

/// Copies a serde_json value into a [`JsonValue`], variant for variant; used
/// by `parse_json` only.
#[verifier::external_body]
fn tree_of(v: &serde_json::Value) -> JsonValue {
    match v {
        serde_json::Value::Null => JsonValue::Null,
        serde_json::Value::Bool(b) => JsonValue::Bool(*b),
        serde_json::Value::Number(n) => JsonValue::Number(n.to_string()),
        serde_json::Value::String(s) => JsonValue::Str(s.clone()),
        serde_json::Value::Array(a) => JsonValue::Array(a.iter().map(tree_of).collect()),
        serde_json::Value::Object(m) => JsonValue::Object(m.iter().map(|(k, x)| (k.clone(), tree_of(x))).collect()),
    }
}

/// The value stored under `key` among an object's members.
pub open spec fn entry_value(entries: Seq<(String, JsonValue)>, key: Seq<char>) -> Option<JsonValue>
    decreases entries.len(),
{
    if entries.len() == 0 {
        None
    } else if entries[0].0@ == key {
        Some(entries[0].1)
    } else {
        entry_value(entries.drop_first(), key)
    }
}

/// One step down a key path: `v`, known as `parent`, must be an object, and
/// must have `key`, known as `field`.
pub open spec fn member(v: JsonValue, parent: Field, key: Seq<char>, field: Field) -> Result<JsonValue, ExtractionError> {
    match v {
        JsonValue::Object(entries) => match entry_value(entries@, key) {
            Some(x) => Ok(x),
            None => Err(ExtractionError::MissingField(field)),
        },
        _ => Err(ExtractionError::TypeMismatch(parent)),
    }
}

/// The last step of a key path: `v`, known as `field`, must be a non-empty string.
pub open spec fn text_value(v: JsonValue, field: Field) -> Result<Seq<char>, ExtractionError> {
    match v {
        JsonValue::Str(s) => if s@.len() == 0 {
            Err(ExtractionError::MissingField(field))
        } else {
            Ok(s@)
        },
        _ => Err(ExtractionError::TypeMismatch(field)),
    }
}

/// The string found in `root` under `k1`, then `k2`, then `k3`; the first step
/// that fails names its field.
pub open spec fn text_at(
    root: JsonValue,
    k1: Seq<char>,
    f1: Field,
    k2: Seq<char>,
    f2: Field,
    k3: Seq<char>,
    f3: Field,
) -> Result<Seq<char>, ExtractionError> {
    match member(root, Field::PageModel, k1, f1) {
        Err(e) => Err(e),
        Ok(a) => match member(a, f1, k2, f2) {
            Err(e) => Err(e),
            Ok(b) => match member(b, f2, k3, f3) {
                Err(e) => Err(e),
                Ok(c) => text_value(c, f3),
            },
        },
    }
}

/// Looks `key` up in `v`, which the path knows as `parent`.
pub fn get_member<'a>(v: &'a JsonValue, parent: Field, key: &str, field: Field) -> (r: Result<&'a JsonValue, ExtractionError>)
    ensures
        r matches Ok(x) ==> member(*v, parent, key@, field) == Ok::<JsonValue, ExtractionError>(*x),
        r matches Err(e) ==> member(*v, parent, key@, field) == Err::<JsonValue, ExtractionError>(e),
{
    match v {
        JsonValue::Object(entries) => {
            let k: String = key.to_owned();
            let mut i: usize = 0;
            assert(entries@.subrange(0, entries@.len() as int) =~= entries@);
            while i < entries.len()
                invariant
                    i <= entries@.len(),
                    k@ == key@,
                    *v == JsonValue::Object(*entries),
                    entry_value(entries@, key@) == entry_value(entries@.subrange(i as int, entries@.len() as int), key@),
                decreases entries@.len() - i,
            {
                let ghost rest = entries@.subrange(i as int, entries@.len() as int);
                assert(rest[0] == entries@[i as int]);
                if entries[i].0 == k {
                    assert(entry_value(rest, key@) == Some(rest[0].1));
                    return Ok(&entries[i].1);
                }
                assert(rest.drop_first() =~= entries@.subrange(i + 1, entries@.len() as int));
                i = i + 1;
            }
            Err(ExtractionError::MissingField(field))
        },
        _ => Err(ExtractionError::TypeMismatch(parent)),
    }
}

/// The non-empty string that `v`, known as `field`, holds.
pub fn get_text(v: &JsonValue, field: Field) -> (r: Result<String, ExtractionError>)
    ensures
        r matches Ok(s) ==> text_value(*v, field) == Ok::<Seq<char>, ExtractionError>(s@),
        r matches Err(e) ==> text_value(*v, field) == Err::<Seq<char>, ExtractionError>(e),
{
    match v {
        JsonValue::Str(s) => if s.as_str().is_empty() {
            Err(ExtractionError::MissingField(field))
        } else {
            Ok(s.clone())
        },
        _ => Err(ExtractionError::TypeMismatch(field)),
    }
}

/// The string found in `root` under `k1`, then `k2`, then `k3`.
pub fn get_text_at(
    root: &JsonValue,
    k1: &str,
    f1: Field,
    k2: &str,
    f2: Field,
    k3: &str,
    f3: Field,
) -> (r: Result<String, ExtractionError>)
    ensures
        r matches Ok(s) ==> text_at(*root, k1@, f1, k2@, f2, k3@, f3) == Ok::<Seq<char>, ExtractionError>(s@),
        r matches Err(e) ==> text_at(*root, k1@, f1, k2@, f2, k3@, f3) == Err::<Seq<char>, ExtractionError>(e),
{
    let a = match get_member(root, Field::PageModel, k1, f1) {
        Ok(a) => a,
        Err(e) => return Err(e),
    };
    let b = match get_member(a, f1, k2, f2) {
        Ok(b) => b,
        Err(e) => return Err(e),
    };
    let c = match get_member(b, f2, k3, f3) {
        Ok(c) => c,
        Err(e) => return Err(e),
    };
    get_text(c, f3)
}

} // verus!
