//! A plain-value model of a JSON document, and the two parsers that produce
//! one from text (JSON through `serde_json`, YAML through `serde_yaml`).
//! The lookups mirror `serde_json::Value::{get, as_str, as_array}`.
use vstd::prelude::*;

use serde_json::Value;

use crate::text::{opt_view, strs_view, lemma_strs_view_push};

verus! {

/// A JSON number, told apart the way `serde_json::Number` stores it.
pub enum JsonNumber {
    /// A non-negative integer.
    PosInt(u64),
    /// A negative integer.
    NegInt(i64),
    /// Anything else (a float).
    Float,
}

/// A JSON value.
pub enum Json {
    Null,
    Bool(bool),
    Number(JsonNumber),
    Str(String),
    Array(Vec<Json>),
    /// Members in the order `serde_json::Map` keeps them (by key); keys are
    /// distinct.
    Object(Vec<(String, Json)>),
}

#[verifier::external_type_specification]
#[verifier::external_body]
pub struct ExJsonValue(Value);

/// What `serde_json::from_str::<serde_json::Value>` returns for a text:
/// the document, or the error's message.
pub uninterp spec fn json_text_value(text: Seq<char>) -> Result<Json, Seq<char>>;

/// What `serde_yaml::from_str::<serde_yaml::Value>` followed by
/// `serde_json::to_value` returns for a text: the document, or the message of
/// whichever of the two failed.
pub uninterp spec fn yaml_text_value(text: Seq<char>) -> Result<Json, Seq<char>>;

/// The result with its error message taken by view.
pub open spec fn parsed_view(r: Result<Json, String>) -> Result<Json, Seq<char>> {
    match r {
        Ok(v) => Ok(v),
        Err(e) => Err(e@),
    }
}

/// Copies a `serde_json::Value` into the model, variant for variant.
#[verifier::external_body]
fn json_from_serde(v: &Value) -> Json {
    match v {
        Value::Null => Json::Null,
        Value::Bool(b) => Json::Bool(*b),
        Value::Number(n) => Json::Number(match (n.as_u64(), n.as_i64()) {
            (Some(u), _) => JsonNumber::PosInt(u),
            (None, Some(i)) => JsonNumber::NegInt(i),
            (None, None) => JsonNumber::Float,
        }),
        Value::String(s) => Json::Str(s.clone()),
        Value::Array(a) => Json::Array(a.iter().map(json_from_serde).collect()),
        Value::Object(m) => Json::Object(
            m.iter().map(|(k, x)| (k.clone(), json_from_serde(x))).collect(),
        ),
    }
}

/// `serde_json::from_str` into a `serde_json::Value`, copied into the model.
/// The contract names the result (`json_text_value`) and says nothing of
/// which texts parse: that is the grammar `serde_json` implements.
#[verifier::external_body]
pub fn parse_json_text(text: &str) -> (r: Result<Json, String>)
    ensures
        parsed_view(r) == json_text_value(text@),
{
    match serde_json::from_str::<Value>(text) {
        Ok(v) => Ok(json_from_serde(&v)),
        Err(e) => Err(e.to_string()),
    }
}

/// `serde_yaml::from_str` into a `serde_yaml::Value`, then
/// `serde_json::to_value`, copied into the model. The contract names the
/// result (`yaml_text_value`) and says nothing of which texts parse.
#[verifier::external_body]
pub fn parse_yaml_text(text: &str) -> (r: Result<Json, String>)
    ensures
        parsed_view(r) == yaml_text_value(text@),
{
    let yaml: serde_yaml::Value = match serde_yaml::from_str(text) {
        Ok(y) => y,
        Err(e) => return Err(e.to_string()),
    };
    match serde_json::to_value(yaml) {
        Ok(v) => Ok(json_from_serde(&v)),
        Err(e) => Err(e.to_string()),
    }
}

/// The value of the first member named `key`.
pub open spec fn member(fields: Seq<(String, Json)>, key: Seq<char>) -> Option<Json>
    decreases fields.len(),
{
    if fields.len() == 0 {
        None
    } else if fields[0].0@ == key {
        Some(fields[0].1)
    } else {
        member(fields.drop_first(), key)
    }
}

impl Json {
    /// `Value::get(key)`: the member of an object, `None` for anything else.
    pub open spec fn get(self, key: Seq<char>) -> Option<Json> {
        match self {
            Json::Object(fields) => member(fields@, key),
            _ => None,
        }
    }

    /// `Value::get(i)` for an index: the element of an array.
    pub open spec fn at(self, i: int) -> Option<Json> {
        match self {
            Json::Array(items) => if 0 <= i < items@.len() {
                Some(items@[i])
            } else {
                None
            },
            _ => None,
        }
    }

    /// `Value::as_str`.
    pub open spec fn as_str(self) -> Option<Seq<char>> {
        match self {
            Json::Str(s) => Some(s@),
            _ => None,
        }
    }

    /// `Value::get(key).and_then(Value::as_str)`.
    pub open spec fn str_at(self, key: Seq<char>) -> Option<Seq<char>> {
        match self.get(key) {
            Some(v) => v.as_str(),
            None => None,
        }
    }

    /// `Value::get(key).and_then(Value::as_array)`.
    pub open spec fn array_at(self, key: Seq<char>) -> Option<Seq<Json>> {
        match self.get(key) {
            Some(Json::Array(items)) => Some(items@),
            _ => None,
        }
    }

    pub fn lookup<'a>(&'a self, key: &str) -> (r: Option<&'a Json>)
        ensures
            match r {
                Some(v) => self.get(key@) == Some(*v),
                None => self.get(key@) is None,
            },
    {
        match self {
            Json::Object(fields) => {
                let mut i: usize = 0;
                assert(fields@.subrange(0, fields@.len() as int) =~= fields@);
                while i < fields.len()
                    invariant
                        i <= fields@.len(),
                        self.get(key@) == member(fields@, key@),
                        member(fields@, key@) == member(fields@.subrange(i as int, fields@.len() as int), key@),
                    decreases fields@.len() - i,
                {
                    assert(fields@.subrange(i as int, fields@.len() as int).drop_first() =~= fields@.subrange(i + 1, fields@.len() as int));
                    if crate::text::str_eq(fields[i].0.as_str(), key) {
                        assert(fields@.subrange(i as int, fields@.len() as int)[0] == fields@[i as int]);
                        return Some(&fields[i].1);
                    }
                    i += 1;
                }
                None
            }
            _ => None,
        }
    }
}

impl Json {
    pub fn as_str_ref(&self) -> (r: Option<&String>)
        ensures
            match r {
                Some(s) => self.as_str() == Some(s@),
                None => self.as_str() is None,
            },
    {
        match self {
            Json::Str(s) => Some(s),
            _ => None,
        }
    }

    pub fn element(&self, i: usize) -> (r: Option<&Json>)
        ensures
            match r {
                Some(v) => self.at(i as int) == Some(*v),
                None => self.at(i as int) is None,
            },
    {
        match self {
            Json::Array(items) => if i < items.len() {
                Some(&items[i])
            } else {
                None
            },
            _ => None,
        }
    }

    /// `get(key).and_then(as_str)`, copied out.
    pub fn str_field(&self, key: &str) -> (r: Option<String>)
        ensures
            opt_view(r) == self.str_at(key@),
    {
        match self.lookup(key) {
            Some(v) => match v.as_str_ref() {
                Some(s) => Some(s.clone()),
                None => None,
            },
            None => None,
        }
    }

    /// `get(key).and_then(as_array)`.
    pub fn array_field<'a>(&'a self, key: &str) -> (r: Option<&'a Vec<Json>>)
        ensures
            match r {
                Some(items) => self.array_at(key@) == Some(items@),
                None => self.array_at(key@) is None,
            },
    {
        match self.lookup(key) {
            Some(v) => match v {
                Json::Array(items) => Some(items),
                _ => None,
            },
            None => None,
        }
    }
}

/// The strings among `items`, in order (`filter_map(as_str)`).
pub open spec fn str_items(items: Seq<Json>) -> Seq<Seq<char>>
    decreases items.len(),
{
    if items.len() == 0 {
        seq![]
    } else {
        let rest = str_items(items.drop_last());
        match items.last().as_str() {
            Some(s) => rest.push(s),
            None => rest,
        }
    }
}

/// The strings of the array under `key`; empty when there is no such array.
pub open spec fn str_list(v: Json, key: Seq<char>) -> Seq<Seq<char>> {
    match v.array_at(key) {
        Some(items) => str_items(items),
        None => seq![],
    }
}

pub fn collect_strs(items: &Vec<Json>) -> (r: Vec<String>)
    ensures
        strs_view(r@) == str_items(items@),
{
    let mut r: Vec<String> = Vec::new();
    let mut i: usize = 0;
    while i < items.len()
        invariant
            i <= items@.len(),
            strs_view(r@) == str_items(items@.take(i as int)),
        decreases items@.len() - i,
    {
        assert(items@.take(i + 1).drop_last() =~= items@.take(i as int));
        match items[i].as_str_ref() {
            Some(s) => {
                let c = s.clone();
                proof {
                    lemma_strs_view_push(r@, c);
                }
                r.push(c);
            },
            None => {},
        }
        i += 1;
    }
    assert(items@.take(items@.len() as int) =~= items@);
    r
}

pub fn str_list_field(v: &Json, key: &str) -> (r: Vec<String>)
    ensures
        strs_view(r@) == str_list(*v, key@),
{
    match v.array_field(key) {
        Some(items) => collect_strs(items),
        None => {
            let r: Vec<String> = Vec::new();
            assert(strs_view(r@) =~= seq![]);
            r
        },
    }
}

} // verus!
