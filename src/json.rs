//! A JSON value whose structure the decoders can read, and its mathematical view.
use vstd::prelude::*;
use crate::errors::VerificationError;
use crate::text::str_eq;

verus! {

/// A parsed JSON document.
#[derive(Debug, PartialEq)]
pub enum Json {
    Null,
    Bool(bool),
    /// A number, in the decimal notation it is written in.
    Number(String),
    Str(String),
    Array(Vec<Json>),
    /// The members of an object, in order; where a key repeats, the last one counts.
    Object(Vec<(String, Json)>),
}

/// The mathematical content of a `Json`.
pub enum JsonView {
    Null,
    Bool(bool),
    Number(Seq<char>),
    Str(Seq<char>),
    Array(Seq<JsonView>),
    Object(Seq<(Seq<char>, JsonView)>),
}

pub open spec fn view_of(j: Json) -> JsonView
    decreases j,
{
    match j {
        Json::Null => JsonView::Null,
        Json::Bool(b) => JsonView::Bool(b),
        Json::Number(n) => JsonView::Number(n@),
        Json::Str(s) => JsonView::Str(s@),
        Json::Array(v) => JsonView::Array(
            Seq::new(
                v@.len(),
                |i: int|
                    if 0 <= i < v@.len() {
                        view_of(v@[i])
                    } else {
                        JsonView::Null
                    },
            ),
        ),
        Json::Object(v) => JsonView::Object(
            Seq::new(
                v@.len(),
                |i: int|
                    if 0 <= i < v@.len() {
                        (v@[i].0@, view_of(v@[i].1))
                    } else {
                        (Seq::empty(), JsonView::Null)
                    },
            ),
        ),
    }
}

impl View for Json {
    type V = JsonView;

    open spec fn view(&self) -> JsonView {
        view_of(*self)
    }
}

/// The value of member `k` of an object with members `es`: the last member with that key.
pub open spec fn field(es: Seq<(Seq<char>, JsonView)>, k: Seq<char>) -> Option<JsonView>
    decreases es.len(),
{
    if es.len() == 0 {
        None
    } else if es.last().0 == k {
        Some(es.last().1)
    } else {
        field(es.drop_last(), k)
    }
}

/// The member `k` of `j`, where `j` is an object.
pub open spec fn member(j: JsonView, k: Seq<char>) -> Option<JsonView> {
    match j {
        JsonView::Object(es) => field(es, k),
        _ => None,
    }
}

/// The named result of parsing JSON text, where it parses.
pub uninterp spec fn json_of(text: Seq<char>) -> Option<JsonView>;

/// `serde_json`'s value type, carried only as far as its conversion into `Json`.
#[verifier::external_type_specification]
#[verifier::external_body]
pub struct ExJsonValue(serde_json::Value);

/// Relies on the variants of `serde_json::Value`: moves each into the matching `Json` variant.
#[verifier::external_body]
fn from_value(v: serde_json::Value) -> Json {
    match v {
        serde_json::Value::Null => Json::Null,
        serde_json::Value::Bool(b) => Json::Bool(b),
        serde_json::Value::Number(n) => Json::Number(n.to_string()),
        serde_json::Value::String(s) => Json::Str(s),
        serde_json::Value::Array(a) => Json::Array(a.into_iter().map(from_value).collect()),
        serde_json::Value::Object(m) => Json::Object(m.into_iter().map(|(k, x)| (k, from_value(x))).collect()),
    }
}

/// Relies on `serde_json::from_str`: parses the text as one JSON value, or reports why not.
#[verifier::external_body]
fn json_from_str(text: &str) -> (r: Result<Json, serde_json::Error>)
    ensures
        r is Ok <==> json_of(text@) is Some,
        r matches Ok(j) ==> json_of(text@) == Some(j@),
{
    serde_json::from_str::<serde_json::Value>(text).map(from_value)
}

impl Json {
    /// Parses JSON text.
    pub fn parse(text: &str) -> (r: Result<Json, VerificationError>)
        ensures
            r is Ok <==> json_of(text@) is Some,
            r matches Ok(j) ==> json_of(text@) == Some(j@),
            r matches Err(e) ==> e is JsonParsingError,
    {
        match json_from_str(text) {
            Ok(j) => Ok(j),
            Err(e) => Err(VerificationError::JsonParsingError(e)),
        }
    }

    /// An object without members.
    pub fn empty_object() -> (r: Json)
        ensures
            r@ == JsonView::Object(Seq::empty()),
    {
        let r = Json::Object(Vec::new());
        assert(r@->Object_0 =~= Seq::empty());
        r
    }

    /// The member `key` of this value, if it is an object that has one.
    pub fn get(&self, key: &str) -> (r: Option<&Json>)
        ensures
            match r {
                Some(x) => member(self@, key@) == Some(x@),
                None => member(self@, key@) is None,
            },
    {
        match self {
            Json::Object(v) => {
                let ghost es = self@->Object_0;
                let mut i: usize = v.len();
                assert(es.subrange(0, es.len() as int) =~= es);
                while i > 0
                    invariant
                        i <= v@.len(),
                        es.len() == v@.len(),
                        es == self@->Object_0,
                        *self == Json::Object(*v),
                        field(es, key@) == field(es.subrange(0, i as int), key@),
                    decreases i,
                {
                    let ghost pre = es.subrange(0, i as int);
                    assert(pre.last() == es[i - 1]);
                    assert(pre.drop_last() =~= es.subrange(0, i - 1));
                    if str_eq(v[i - 1].0.as_str(), key) {
                        return Some(&v[i - 1].1);
                    }
                    i = i - 1;
                }
                None
            },
            _ => None,
        }
    }

    /// The text of a string value.
    pub fn as_str(&self) -> (r: Option<&str>)
        ensures
            match r {
                Some(s) => self@ == JsonView::Str(s@),
                None => !(self@ is Str),
            },
    {
        match self {
            Json::Str(s) => Some(s.as_str()),
            _ => None,
        }
    }

    /// The value of a boolean.
    pub fn as_bool(&self) -> (r: Option<bool>)
        ensures
            match r {
                Some(b) => self@ == JsonView::Bool(b),
                None => !(self@ is Bool),
            },
    {
        match self {
            Json::Bool(b) => Some(*b),
            _ => None,
        }
    }

    /// A copy of this value.
    pub fn deep_clone(&self) -> (r: Json)
        ensures
            r@ == self@,
        decreases self,
    {
        match self {
            Json::Null => Json::Null,
            Json::Bool(b) => Json::Bool(*b),
            Json::Number(n) => Json::Number(n.clone()),
            Json::Str(s) => Json::Str(s.clone()),
            Json::Array(v) => {
                let mut out: Vec<Json> = Vec::new();
                let mut i: usize = 0;
                while i < v.len()
                    invariant
                        i <= v@.len(),
                        out@.len() == i,
                        *self == Json::Array(*v),
                        forall|m: int| 0 <= m < i ==> view_of(#[trigger] out@[m]) == view_of(v@[m]),
                    decreases v@.len() - i,
                {
                    assert(decreases_to!(*self => (*self)->Array_0));
                    assert(decreases_to!(*v => v@));
                    assert(decreases_to!(v@ => v@[i as int]));
                    out.push(v[i].deep_clone());
                    i = i + 1;
                }
                let r = Json::Array(out);
                assert(r@->Array_0 =~= self@->Array_0);
                r
            },
            Json::Object(v) => {
                let mut out: Vec<(String, Json)> = Vec::new();
                let mut i: usize = 0;
                while i < v.len()
                    invariant
                        i <= v@.len(),
                        out@.len() == i,
                        *self == Json::Object(*v),
                        forall|m: int|
                            0 <= m < i ==> (#[trigger] out@[m]).0@ == v@[m].0@ && view_of(out@[m].1)
                                == view_of(v@[m].1),
                    decreases v@.len() - i,
                {
                    assert(decreases_to!(*self => (*self)->Object_0));
                    assert(decreases_to!(*v => v@));
                    assert(decreases_to!(v@ => v@[i as int]));
                    assert(decreases_to!(v@[i as int] => v@[i as int].1));
                    let k = v[i].0.clone();
                    let x = v[i].1.deep_clone();
                    out.push((k, x));
                    i = i + 1;
                }
                let r = Json::Object(out);
                assert(r@->Object_0 =~= self@->Object_0);
                r
            },
        }
    }
}

} // verus!
