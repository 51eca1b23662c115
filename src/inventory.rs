//! Reading the inference service's model inventory: a JSON document whose
//! `models` array holds entries with a `name`.
use vstd::prelude::*;
use crate::checks::{reached, ModelListing};

verus! {

#[verifier::external_type_specification]
#[verifier::external_body]
pub struct ExJsonValue(serde_json::Value);

/// A JSON document as this library reads it. Numbers are kept without their
/// value, which nothing here reads; an object keeps its members in the order
/// the parser hands them out, which for serde_json's default map is by key.
#[derive(Debug)]
pub enum Json {
    Null,
    Bool(bool),
    Number,
    Str(String),
    Array(Vec<Json>),
    Object(Vec<(String, Json)>),
}

/// The document that a text parses to, if it is well-formed JSON.
pub uninterp spec fn json_of(s: Seq<char>) -> Option<Json>;

/// Relies on `serde_json::Value`'s variants: the same document in this
/// library's type, one variant for each.
#[verifier::external_body]
fn json_from_value(v: serde_json::Value) -> Json {
    match v {
        serde_json::Value::Null => Json::Null,
        serde_json::Value::Bool(b) => Json::Bool(b),
        serde_json::Value::Number(_) => Json::Number,
        serde_json::Value::String(s) => Json::Str(s),
        serde_json::Value::Array(a) => Json::Array(a.into_iter().map(json_from_value).collect()),
        serde_json::Value::Object(m) => Json::Object(m.into_iter().map(|(k, x)| (k, json_from_value(x))).collect()),
    }
}

/// Relies on `serde_json::from_str` into `serde_json::Value`: it succeeds
/// exactly on well-formed JSON, and the document depends on the text alone.
#[verifier::external_body]
fn parse_json(body: &str) -> (r: Option<Json>)
    ensures
        r == json_of(body@),
{
    match serde_json::from_str::<serde_json::Value>(body) {
        Ok(v) => Some(json_from_value(v)),
        Err(_) => None,
    }
}

/// The first member of an object named `key`.
pub open spec fn lookup(entries: Seq<(String, Json)>, key: Seq<char>) -> Option<Json>
    decreases entries.len(),
{
    if entries.len() == 0 {
        None
    } else if entries[0].0@ == key {
        Some(entries[0].1)
    } else {
        lookup(entries.drop_first(), key)
    }
}

/// The member `key` of a document, if it is an object that has one.
pub open spec fn member_of(doc: Json, key: Seq<char>) -> Option<Json> {
    match doc {
        Json::Object(entries) => lookup(entries@, key),
        _ => None,
    }
}

/// The `name` of an inventory entry, if it is a string.
pub open spec fn entry_name(item: Json) -> Option<Seq<char>> {
    match member_of(item, "name"@) {
        Some(Json::Str(s)) => Some(s@),
        _ => None,
    }
}

/// The string names of the entries, in order; entries without one are skipped.
pub open spec fn names_in(items: Seq<Json>) -> Seq<Seq<char>>
    decreases items.len(),
{
    if items.len() == 0 {
        Seq::empty()
    } else {
        let rest = names_in(items.drop_last());
        match entry_name(items.last()) {
            Some(n) => rest.push(n),
            None => rest,
        }
    }
}

/// The names listed in an inventory document: those of the entries of its
/// `models` array, in order; none when there is no such array.
pub open spec fn model_names_of(doc: Json) -> Seq<Seq<char>> {
    match member_of(doc, "models"@) {
        Some(Json::Array(items)) => names_in(items@),
        _ => Seq::empty(),
    }
}

/// The position of the first member named `key`.
fn find_member(entries: &Vec<(String, Json)>, key: &str) -> (r: Option<usize>)
    ensures
        r is None ==> lookup(entries@, key@) is None,
        r matches Some(k) ==> k < entries.len() && lookup(entries@, key@) == Some(entries@[k as int].1),
{
    let wanted = key.to_owned();
    let mut i: usize = 0;
    assert(entries@.subrange(0, entries.len() as int) == entries@);
    while i < entries.len()
        invariant
            0 <= i <= entries.len(),
            wanted@ == key@,
            lookup(entries@, key@) == lookup(entries@.subrange(i as int, entries.len() as int), key@),
        decreases entries.len() - i,
    {
        let ghost rest = entries@.subrange(i as int, entries.len() as int);
        assert(rest.drop_first() == entries@.subrange(i + 1, entries.len() as int));
        assert(rest[0] == entries@[i as int]);
        if entries[i].0 == wanted {
            return Some(i);
        }
        i = i + 1;
    }
    None
}

/// The member `key` of a document, if it is an object that has one.
fn member<'a>(doc: &'a Json, key: &str) -> (r: Option<&'a Json>)
    ensures
        r is None ==> member_of(*doc, key@) is None,
        r matches Some(m) ==> member_of(*doc, key@) == Some(*m),
{
    match doc {
        Json::Object(entries) => match find_member(entries, key) {
            Some(k) => Some(&entries[k].1),
            None => None,
        },
        _ => None,
    }
}

/// The names of the entries of the `models` array that have a string `name`,
/// in order; none when there is no such array.
pub fn model_names(data: &Json) -> (r: Vec<String>)
    ensures
        r.deep_view() == model_names_of(*data),
{
    let mut names: Vec<String> = Vec::new();
    let items = match member(data, "models") {
        Some(Json::Array(items)) => items,
        _ => {
            assert(names.deep_view() =~= Seq::<Seq<char>>::empty());
            return names;
        },
    };
    let mut i: usize = 0;
    while i < items.len()
        invariant
            0 <= i <= items.len(),
            member_of(*data, "models"@) == Some(Json::Array(*items)),
            names.deep_view() == names_in(items@.subrange(0, i as int)),
        decreases items.len() - i,
    {
        let ghost prefix = items@.subrange(0, i + 1);
        assert(prefix.drop_last() == items@.subrange(0, i as int));
        assert(prefix.last() == items@[i as int]);
        match member(&items[i], "name") {
            Some(Json::Str(s)) => {
                names.push(s.clone());
            },
            _ => {},
        }
        assert(names.deep_view() =~= names_in(prefix));
        i = i + 1;
    }
    assert(items@.subrange(0, items.len() as int) == items@);
    names
}

/// What an answer of the inventory endpoint says: unreachable without a
/// success status, unreadable when the body is not JSON, and otherwise the
/// names that the document lists.
pub fn listing_from_response(status: Option<u16>, body: &str) -> (r: ModelListing)
    ensures
        !reached(status) ==> r is Unreachable,
        reached(status) && json_of(body@) is None ==> r is Unreadable,
        reached(status) && json_of(body@) is Some ==> (r matches ModelListing::Names(ns)
            && ns.deep_view() == model_names_of(json_of(body@)->Some_0)),
{
    let ok = match status {
        Some(s) => 200 <= s && s < 300,
        None => false,
    };
    if !ok {
        return ModelListing::Unreachable;
    }
    match parse_json(body) {
        Some(data) => ModelListing::Names(model_names(&data)),
        None => ModelListing::Unreadable,
    }
}

} // verus!
