//! JSON documents, read and built with `serde_json`.
use vstd::prelude::*;


verus! {

/// A JSON document, with the members of an object in their order.
pub enum Json {
    Null,
    Bool(bool),
    /// A number, as it is written.
    Number(Seq<char>),
    Text(Seq<char>),
    Array(Seq<Json>),
    Object(Seq<(Seq<char>, Json)>),
}

/// `serde_json::Value`, a JSON document.
#[verifier::external_type_specification]
#[verifier::external_body]
pub struct ExValue(serde_json::Value);

/// The document that a `serde_json::Value` holds.
pub uninterp spec fn json_of(value: serde_json::Value) -> Json;

/// What `serde_json::from_str` makes of a text: the document it holds, or the
/// message of the error.
pub uninterp spec fn json_document(text: Seq<char>) -> Result<Json, Seq<char>>;

/// How `Display` of `serde_json::Value` writes a document: on one line, without
/// spaces.
pub uninterp spec fn json_text(document: Json) -> Seq<char>;

/// What `serde_json::to_string_pretty` makes of a document: the text over several
/// lines, or the message of the error.
pub uninterp spec fn json_pretty(document: Json) -> Result<Seq<char>, Seq<char>>;

/// The documents that a list of values holds.
pub open spec fn jsons(s: Seq<serde_json::Value>) -> Seq<Json> {
    s.map_values(|v: serde_json::Value| json_of(v))
}

/// The members that a list of named values makes up.
pub open spec fn members_of(s: Seq<(String, serde_json::Value)>) -> Seq<(Seq<char>, Json)> {
    s.map_values(|p: (String, serde_json::Value)| (p.0@, json_of(p.1)))
}

/// The value of an object's member.
pub open spec fn json_member(document: Json, key: Seq<char>) -> Option<Json> {
    match document {
        Json::Object(members) => if crate::assoc::assoc(members).contains_key(key) {
            Some(crate::assoc::assoc(members)[key])
        } else {
            None
        },
        _ => None,
    }
}

/// The element of an array.
pub open spec fn json_element(document: Json, index: nat) -> Option<Json> {
    match document {
        Json::Array(items) => if index < items.len() {
            Some(items[index as int])
        } else {
            None
        },
        _ => None,
    }
}

/// The document of an optional value.
pub open spec fn json_opt(value: Option<&serde_json::Value>) -> Option<Json> {
    match value {
        Some(v) => Some(json_of(*v)),
        None => None,
    }
}

/// `serde_json::from_str` reads a document; where it fails, its error's message
/// is handed on.
#[verifier::external_body]
pub(crate) fn parse_document(text: &str) -> (r: Result<serde_json::Value, String>)
    ensures
        match r {
            Ok(value) => json_document(text@) == Ok::<Json, Seq<char>>(json_of(value)),
            Err(message) => json_document(text@) == Err::<Json, Seq<char>>(message@),
        },
{
    serde_json::from_str(text).map_err(|e| e.to_string())
}

/// `serde_json::Value::get` with a string finds the member of that key, if the
/// value is an object that has one.
#[verifier::external_body]
pub(crate) fn member<'a>(value: &'a serde_json::Value, key: &str) -> (r: Option<&'a serde_json::Value>)
    ensures
        json_opt(r) == json_member(json_of(*value), key@),
{
    value.get(key)
}

/// `serde_json::Value::get` with a number finds the element at that position,
/// if the value is an array that reaches it.
#[verifier::external_body]
pub(crate) fn element(value: &serde_json::Value, index: usize) -> (r: Option<&serde_json::Value>)
    ensures
        json_opt(r) == json_element(json_of(*value), index as nat),
{
    value.get(index)
}

/// `serde_json::Value::as_bool` gives the truth value of a boolean, and nothing
/// for anything else.
pub assume_specification[ serde_json::Value::as_bool ](value: &serde_json::Value) -> (r: Option<bool>)
    ensures
        r == match json_of(*value) {
            Json::Bool(b) => Some(b),
            _ => None,
        },
;

/// `serde_json::Value::as_str` gives the text of a string, and nothing for
/// anything else.
pub assume_specification[ serde_json::Value::as_str ](value: &serde_json::Value) -> (r: Option<&str>)
    ensures
        match json_of(*value) {
            Json::Text(s) => r is Some && r->Some_0@ == s,
            _ => r is None,
        },
;

/// `serde_json::Value::as_array` gives the elements of an array, and nothing for
/// anything else.
pub assume_specification[ serde_json::Value::as_array ](value: &serde_json::Value) -> (r: Option<
    &Vec<serde_json::Value>,
>)
    ensures
        match json_of(*value) {
            Json::Array(items) => r is Some && jsons(r->Some_0@) == items,
            _ => r is None,
        },
;

/// `serde_json::Value::as_object` gives the members of an object, in their order
/// and none twice, and nothing for anything else.
#[verifier::external_body]
pub(crate) fn members(value: &serde_json::Value) -> (r: Option<Vec<(String, &serde_json::Value)>>)
    ensures
        match json_of(*value) {
            Json::Object(members) => {
                &&& r is Some
                &&& crate::assoc::distinct(members)
                &&& r->Some_0@.map_values(|p: (String, &serde_json::Value)| (p.0@, json_of(*p.1))) == members
            },
            _ => r is None,
        },
{
    value.as_object().map(|m| m.iter().map(|(key, v)| (key.clone(), v)).collect())
}

/// `Display` of `serde_json::Value` writes the document on one line.
#[verifier::external_body]
pub(crate) fn value_text(value: &serde_json::Value) -> (r: String)
    ensures
        r@ == json_text(json_of(*value)),
{
    value.to_string()
}

/// `serde_json::to_string_pretty` writes the document over several lines; where it
/// fails, its error's message is handed on.
#[verifier::external_body]
pub(crate) fn pretty_text(value: &serde_json::Value) -> (r: Result<String, String>)
    ensures
        match r {
            Ok(text) => json_pretty(json_of(*value)) == Ok::<Seq<char>, Seq<char>>(text@),
            Err(message) => json_pretty(json_of(*value)) == Err::<Seq<char>, Seq<char>>(message@),
        },
{
    serde_json::to_string_pretty(value).map_err(|e| e.to_string())
}

/// `serde_json::Value::clone` gives a value that holds the same document.
#[verifier::external_body]
pub(crate) fn copy_value(value: &serde_json::Value) -> (r: serde_json::Value)
    ensures
        json_of(r) == json_of(*value),
{
    value.clone()
}

/// `serde_json::Value::Null` is the null document.
#[verifier::external_body]
pub(crate) fn null_value() -> (r: serde_json::Value)
    ensures
        json_of(r) == Json::Null,
{
    serde_json::Value::Null
}

/// `serde_json::Value::Bool` is the document of a truth value.
#[verifier::external_body]
pub(crate) fn bool_value(b: bool) -> (r: serde_json::Value)
    ensures
        json_of(r) == Json::Bool(b),
{
    serde_json::Value::Bool(b)
}

/// `serde_json::Value::from` of an unsigned number is that number, written in
/// decimal.
#[verifier::external_body]
pub(crate) fn number_value(n: u64) -> (r: serde_json::Value)
    ensures
        json_of(r) == Json::Number(crate::number::decimal_of(n as nat)),
{
    serde_json::Value::from(n)
}

/// `serde_json::Value::String` is the document of a text.
#[verifier::external_body]
pub(crate) fn text_value(s: String) -> (r: serde_json::Value)
    ensures
        json_of(r) == Json::Text(s@),
{
    serde_json::Value::String(s)
}

/// `serde_json::Value::Array` is the document of a list.
#[verifier::external_body]
pub(crate) fn array_value(items: Vec<serde_json::Value>) -> (r: serde_json::Value)
    ensures
        json_of(r) == Json::Array(jsons(items@)),
{
    serde_json::Value::Array(items)
}

/// `serde_json::Map` collected from pairs of different keys keeps their order;
/// `serde_json::Value::Object` is the document it makes up.
#[verifier::external_body]
pub(crate) fn object_value(members: Vec<(String, serde_json::Value)>) -> (r: serde_json::Value)
    requires
        crate::assoc::distinct(members_of(members@)),
    ensures
        json_of(r) == Json::Object(members_of(members@)),
{
    serde_json::Value::Object(members.into_iter().collect())
}

/// A project's document declares `runArgs`: a list with something in it.
pub open spec fn declares_run_args(document: Json) -> bool {
    json_member(document, "runArgs"@) matches Some(Json::Array(items)) && items.len() > 0
}

/// Whether a project's document declares `runArgs` with something in them.
pub fn project_declares_run_args(value: &serde_json::Value) -> (r: bool)
    ensures
        r == declares_run_args(json_of(*value)),
{
    match member(value, "runArgs") {
        Some(args) => match args.as_array() {
            Some(items) => items.len() > 0,
            None => false,
        },
        None => false,
    }
}

/// A document declares `runArgs` exactly where it is an object with a member of that
/// name that is a list with something in it.
pub proof fn run_args_are_declared_by_a_list(members: Seq<(Seq<char>, Json)>, i: int)
    requires
        crate::assoc::distinct(members),
        0 <= i < members.len(),
        members[i].0 == "runArgs"@,
    ensures
        declares_run_args(Json::Object(members)) <==> (members[i].1 is Array && members[i].1->Array_0.len() > 0),
{
    assert forall|j: int| i < j < members.len() implies #[trigger] members[j].0 != members[i].0 by {}
    crate::assoc::assoc_last(members, i);
}

/// A document without a member of that name, and one that is no object, declares none.
pub proof fn without_the_member_nothing_is_declared(document: Json)
    requires
        document matches Json::Object(members) ==> forall|i: int|
            0 <= i < members.len() ==> (#[trigger] members[i]).0 != "runArgs"@,
    ensures
        !declares_run_args(document),
{
    if let Json::Object(members) = document {
        crate::assoc::assoc_keys(members);
    }
}

} // verus!
