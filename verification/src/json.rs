//! JSON documents as the library reads them: parsed and written by `serde_json`,
//! looked into and redacted by verified code.
use vstd::prelude::*;
use vstd::string::*;
use crate::text::{has_sub, lowercase_str, str_contains, str_eq, to_owned_string, unicode_lowercase};

verus! {

#[verifier::external_type_specification]
#[verifier::external_body]
pub struct ExJsonNumber(serde_json::Number);

#[verifier::external_type_specification]
#[verifier::external_body]
pub struct ExJsonValue(serde_json::Value);

/// A JSON value, node for node as `serde_json::Value` holds it (objects list their
/// members in the order `serde_json` keeps them).
#[derive(Debug)]
pub enum JsonValue {
    Null,
    Bool(bool),
    Number(serde_json::Number),
    Str(String),
    Array(Vec<JsonValue>),
    Object(Vec<(String, JsonValue)>),
}

/// The abstract value of a [`JsonValue`].
pub enum JsonModel {
    Null,
    Bool(bool),
    Number(serde_json::Number),
    Str(Seq<char>),
    Array(Seq<JsonModel>),
    Object(Seq<(Seq<char>, JsonModel)>),
}

/// The abstract value of a JSON value.
pub open spec fn model_of(v: JsonValue) -> JsonModel
    decreases v,
{
    match v {
        JsonValue::Null => JsonModel::Null,
        JsonValue::Bool(b) => JsonModel::Bool(b),
        JsonValue::Number(n) => JsonModel::Number(n),
        JsonValue::Str(s) => JsonModel::Str(s@),
        JsonValue::Array(items) => JsonModel::Array(
            Seq::new(
                items@.len(),
                |i: int|
                    if 0 <= i < items@.len() {
                        proof {
                            assert(decreases_to!(items => items@));
                            assert(decreases_to!(items@ => items@[i]));
                        }
                        model_of(items@[i])
                    } else {
                        JsonModel::Null
                    },
            ),
        ),
        JsonValue::Object(es) => JsonModel::Object(
            Seq::new(
                es@.len(),
                |i: int|
                    if 0 <= i < es@.len() {
                        proof {
                            assert(decreases_to!(es => es@));
                            assert(decreases_to!(es@ => es@[i]));
                            assert(decreases_to!(es@[i] => es@[i].1));
                        }
                        (es@[i].0@, model_of(es@[i].1))
                    } else {
                        (Seq::empty(), JsonModel::Null)
                    },
            ),
        ),
    }
}

/// What `serde_json::from_str::<Value>` makes of a text: `None` when it is not JSON.
pub uninterp spec fn json_parse_spec(text: Seq<char>) -> Option<JsonModel>;

/// What `serde_json::to_string` writes for a value (`None` if it fails).
pub uninterp spec fn json_compact_spec(m: JsonModel) -> Option<Seq<char>>;

/// What `serde_json::to_string_pretty` writes for a value (`None` if it fails).
pub uninterp spec fn json_pretty_spec(m: JsonModel) -> Option<Seq<char>>;

/// Conversion of a `serde_json::Value` into a [`JsonValue`], node for node.
#[verifier::external_body]
fn json_from_serde(v: serde_json::Value) -> JsonValue {
    match v {
        serde_json::Value::Null => JsonValue::Null,
        serde_json::Value::Bool(b) => JsonValue::Bool(b),
        serde_json::Value::Number(n) => JsonValue::Number(n),
        serde_json::Value::String(s) => JsonValue::Str(s),
        serde_json::Value::Array(a) => JsonValue::Array(a.into_iter().map(json_from_serde).collect()),
        serde_json::Value::Object(m) => JsonValue::Object(
            m.into_iter().map(|(k, v)| (k, json_from_serde(v))).collect(),
        ),
    }
}

/// Conversion of a [`JsonValue`] into a `serde_json::Value`, node for node.
#[verifier::external_body]
fn json_to_serde(v: &JsonValue) -> serde_json::Value {
    match v {
        JsonValue::Null => serde_json::Value::Null,
        JsonValue::Bool(b) => serde_json::Value::Bool(*b),
        JsonValue::Number(n) => serde_json::Value::Number(n.clone()),
        JsonValue::Str(s) => serde_json::Value::String(s.clone()),
        JsonValue::Array(a) => serde_json::Value::Array(a.iter().map(json_to_serde).collect()),
        JsonValue::Object(es) => serde_json::Value::Object(
            es.iter().map(|(k, v)| (k.clone(), json_to_serde(v))).collect(),
        ),
    }
}

/// `serde_json::from_str::<serde_json::Value>`: the value is named by `json_parse_spec`.
#[verifier::external_body]
pub(crate) fn parse_json(text: &str) -> (r: Option<JsonValue>)
    ensures
        match r {
            Some(v) => json_parse_spec(text@) == Some(model_of(v)),
            None => json_parse_spec(text@) is None,
        },
{
    serde_json::from_str::<serde_json::Value>(text).ok().map(json_from_serde)
}

/// `serde_json::to_string`: the text is named by `json_compact_spec`.
#[verifier::external_body]
pub(crate) fn write_json(v: &JsonValue) -> (r: Option<String>)
    ensures
        match r {
            Some(s) => json_compact_spec(model_of(*v)) == Some(s@),
            None => json_compact_spec(model_of(*v)) is None,
        },
{
    serde_json::to_string(&json_to_serde(v)).ok()
}

/// `serde_json::to_string_pretty`: the text is named by `json_pretty_spec`.
#[verifier::external_body]
pub(crate) fn write_json_pretty(v: &JsonValue) -> (r: Option<String>)
    ensures
        match r {
            Some(s) => json_pretty_spec(model_of(*v)) == Some(s@),
            None => json_pretty_spec(model_of(*v)) is None,
        },
{
    serde_json::to_string_pretty(&json_to_serde(v)).ok()
}

/// The member of an object named `key` (the first, should a name repeat); `None`
/// for other values, as `Value::get` answers.
pub open spec fn member_spec(m: JsonModel, key: Seq<char>) -> Option<JsonModel> {
    match m {
        JsonModel::Object(es) => if exists|i: int| 0 <= i < es.len() && #[trigger] es[i].0 == key {
            Some(es[choose|i: int| 0 <= i < es.len() && #[trigger] es[i].0 == key && forall|j: int| 0 <= j < i ==> es[j].0 != key].1)
        } else {
            None
        },
        _ => None,
    }
}

/// The member of an object named `key`, if the value is an object that has one.
pub fn get_member<'a>(v: &'a JsonValue, key: &str) -> (r: Option<&'a JsonValue>)
    ensures
        match r {
            Some(x) => member_spec(model_of(*v), key@) == Some(model_of(*x)),
            None => member_spec(model_of(*v), key@) is None,
        },
{
    match v {
        JsonValue::Object(es) => {
            let ghost m = model_of(*v);
            let ghost ms = m->Object_0;
            let mut i: usize = 0;
            while i < es.len()
                invariant
                    i <= es@.len(),
                    *v == JsonValue::Object(*es),
                    m == model_of(*v),
                    m is Object,
                    ms == m->Object_0,
                    ms.len() == es@.len(),
                    forall|k: int| 0 <= k < es@.len() ==> #[trigger] ms[k] == (es@[k].0@, model_of(es@[k].1)),
                    forall|k: int| 0 <= k < i ==> ms[k].0 != key@,
                decreases es@.len() - i,
            {
                if str_eq(es[i].0.as_str(), key) {
                    proof {
                        assert(0 <= i < ms.len() && ms[i as int].0 == key@ && forall|j: int| 0 <= j < i ==> ms[j].0 != key@);
                        assert(exists|c: int| 0 <= c < ms.len() && #[trigger] ms[c].0 == key@ && forall|j: int| 0 <= j < c ==> ms[j].0 != key@);
                        let c = choose|c: int| 0 <= c < ms.len() && #[trigger] ms[c].0 == key@ && forall|j: int| 0 <= j < c ==> ms[j].0 != key@;
                        if c < i {
                            assert(ms[c].0 != key@);
                        } else if c > i {
                            assert(ms[i as int].0 != key@);
                        }
                    }
                    return Some(&es[i].1);
                }
                i += 1;
            }
            None
        },
        _ => None,
    }
}

/// A member name under which secrets are kept: its lower case contains
/// "password", "secret" or "token", or is "pin".
pub open spec fn sensitive_key(k: Seq<char>) -> bool {
    let l = unicode_lowercase(k);
    has_sub(l, "password"@) || has_sub(l, "secret"@) || has_sub(l, "token"@) || l == "pin"@
}

/// A value with every member under a sensitive name replaced by "REDACTED", at
/// every depth.
pub open spec fn redact_model(m: JsonModel) -> JsonModel
    decreases m,
{
    match m {
        JsonModel::Array(items) => JsonModel::Array(
            Seq::new(
                items.len(),
                |i: int|
                    if 0 <= i < items.len() {
                        proof {
                            assert(decreases_to!(items => items[i]));
                        }
                        redact_model(items[i])
                    } else {
                        JsonModel::Null
                    },
            ),
        ),
        JsonModel::Object(es) => JsonModel::Object(
            Seq::new(
                es.len(),
                |i: int|
                    if 0 <= i < es.len() {
                        proof {
                            assert(decreases_to!(es => es[i]));
                            assert(decreases_to!(es[i] => es[i].1));
                        }
                        if sensitive_key(es[i].0) {
                            (es[i].0, JsonModel::Str("REDACTED"@))
                        } else {
                            (es[i].0, redact_model(es[i].1))
                        }
                    } else {
                        (Seq::empty(), JsonModel::Null)
                    },
            ),
        ),
        other => other,
    }
}

/// Whether a member name is one under which secrets are kept.
pub fn is_sensitive_key(k: &str) -> (r: bool)
    ensures
        r == sensitive_key(k@),
{
    let l = lowercase_str(k);
    str_contains(l.as_str(), "password") || str_contains(l.as_str(), "secret")
        || str_contains(l.as_str(), "token") || str_eq(l.as_str(), "pin")
}

/// `Number::clone`: the copy is the same number.
#[verifier::external_body]
fn clone_number(n: &serde_json::Number) -> (r: serde_json::Number)
    ensures
        r == *n,
{
    n.clone()
}

/// A copy of `v` with every member under a sensitive name replaced by "REDACTED".
pub fn redacted(v: &JsonValue) -> (r: JsonValue)
    ensures
        model_of(r) == redact_model(model_of(*v)),
    decreases v,
{
    match v {
        JsonValue::Null => JsonValue::Null,
        JsonValue::Bool(b) => JsonValue::Bool(*b),
        JsonValue::Number(n) => JsonValue::Number(clone_number(n)),
        JsonValue::Str(s) => JsonValue::Str(s.clone()),
        JsonValue::Array(items) => {
            let mut out: Vec<JsonValue> = Vec::new();
            let mut i: usize = 0;
            while i < items.len()
                invariant
                    i <= items@.len(),
                    out@.len() == i,
                    *v == JsonValue::Array(*items),
                    forall|k: int| 0 <= k < i ==> model_of(#[trigger] out@[k]) == redact_model(model_of(items@[k])),
                decreases items@.len() - i,
            {
                proof {
                    assert(decreases_to!(*v => v->Array_0));
                    assert(decreases_to!(items => items@));
                    assert(decreases_to!(items@ => items@[i as int]));
                }
                let y = redacted(&items[i]);
                out.push(y);
                i += 1;
            }
            let r = JsonValue::Array(out);
            proof {
                let mv = model_of(*v);
                let mi = mv->Array_0;
                assert(mi.len() == items@.len());
                assert forall|k: int| 0 <= k < mi.len() implies #[trigger] mi[k] == model_of(items@[k]) by {}
                let rm = redact_model(mv)->Array_0;
                let ro = model_of(r)->Array_0;
                assert(ro =~= rm);
            }
            r
        },
        JsonValue::Object(es) => {
            let mut out: Vec<(String, JsonValue)> = Vec::new();
            let mut i: usize = 0;
            while i < es.len()
                invariant
                    i <= es@.len(),
                    out@.len() == i,
                    *v == JsonValue::Object(*es),
                    forall|k: int| 0 <= k < i ==> (#[trigger] out@[k]).0@ == es@[k].0@ && model_of(out@[k].1) == (if sensitive_key(es@[k].0@) {
                        JsonModel::Str("REDACTED"@)
                    } else {
                        redact_model(model_of(es@[k].1))
                    }),
                decreases es@.len() - i,
            {
                let key = es[i].0.clone();
                if is_sensitive_key(key.as_str()) {
                    out.push((key, JsonValue::Str(to_owned_string("REDACTED"))));
                } else {
                    proof {
                        assert(decreases_to!(*v => v->Object_0));
                        assert(decreases_to!(es => es@));
                        assert(decreases_to!(es@ => es@[i as int]));
                        assert(decreases_to!(es@[i as int] => es@[i as int].1));
                    }
                    let y = redacted(&es[i].1);
                    out.push((key, y));
                }
                i += 1;
            }
            let r = JsonValue::Object(out);
            proof {
                let mv = model_of(*v);
                let mi = mv->Object_0;
                assert(mi.len() == es@.len());
                assert forall|k: int| 0 <= k < mi.len() implies #[trigger] mi[k] == (es@[k].0@, model_of(es@[k].1)) by {}
                let rm = redact_model(mv)->Object_0;
                let ro = model_of(r)->Object_0;
                assert(ro =~= rm);
            }
            r
        },
    }
}

/// Redaction is idempotent: redacting a redacted value changes nothing.
pub proof fn lemma_redaction_idempotent(m: JsonModel)
    ensures
        redact_model(redact_model(m)) == redact_model(m),
    decreases m,
{
    match m {
        JsonModel::Array(items) => {
            let r = redact_model(m)->Array_0;
            let rr = redact_model(redact_model(m))->Array_0;
            assert forall|i: int| 0 <= i < items.len() implies #[trigger] rr[i] == r[i] by {
                assert(decreases_to!(m => items[i]));
                lemma_redaction_idempotent(items[i]);
            }
            assert(rr =~= r);
        },
        JsonModel::Object(es) => {
            let r = redact_model(m)->Object_0;
            let rr = redact_model(redact_model(m))->Object_0;
            assert forall|i: int| 0 <= i < es.len() implies #[trigger] rr[i] == r[i] by {
                if !sensitive_key(es[i].0) {
                    assert(decreases_to!(m => es[i].1));
                    lemma_redaction_idempotent(es[i].1);
                }
            }
            assert(rr =~= r);
        },
        _ => {},
    }
}

/// Recursively redact secret members of a JSON value, in place.
pub fn redact_json_passwords(value: &mut JsonValue)
    ensures
        model_of(*final(value)) == redact_model(model_of(*old(value))),
{
    let r = redacted(value);
    *value = r;
}


/// The boolean a value holds, if it is one (`Value::as_bool`).
pub open spec fn as_bool_spec(m: JsonModel) -> Option<bool> {
    match m {
        JsonModel::Bool(b) => Some(b),
        _ => None,
    }
}

/// The text a value holds, if it is a string (`Value::as_str`).
pub open spec fn as_str_spec(m: JsonModel) -> Option<Seq<char>> {
    match m {
        JsonModel::Str(s) => Some(s),
        _ => None,
    }
}

/// The boolean a value holds, if it is one.
pub fn json_as_bool(v: &JsonValue) -> (r: Option<bool>)
    ensures
        r == as_bool_spec(model_of(*v)),
{
    match v {
        JsonValue::Bool(b) => Some(*b),
        _ => None,
    }
}

/// The text a value holds, if it is a string.
pub fn json_as_str(v: &JsonValue) -> (r: Option<&str>)
    ensures
        match r {
            Some(s) => as_str_spec(model_of(*v)) == Some(s@),
            None => as_str_spec(model_of(*v)) is None,
        },
{
    match v {
        JsonValue::Str(s) => Some(s.as_str()),
        _ => None,
    }
}

} // verus!
