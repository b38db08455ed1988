//! JSON values.
//!
//! The library carries JSON as [`serde_json::Value`], which Verus cannot look
//! into. [`Json`] says what such a value is, [`json_of`] takes a value to it,
//! and the items below tie the operations of `serde_json` that the library
//! calls to this model.

use vstd::prelude::*;

use crate::text;

verus! {

/// A JSON value as mathematics sees it: the members of an object have no order.
pub enum Json {
    Null,
    Bool(bool),
    /// A number held as a 64-bit integer.
    Int(int),
    /// A number held as a double, by the bits of that double.
    Float(u64),
    Str(Seq<char>),
    Array(Seq<Json>),
    Object(Map<Seq<char>, Json>),
}

/// The member of an object under `key`; nothing where `j` is no object.
pub open spec fn member(j: Json, key: Seq<char>) -> Option<Json> {
    match j {
        Json::Object(m) => if m.dom().contains(key) {
            Some(m[key])
        } else {
            None
        },
        _ => None,
    }
}

/// The text of a JSON string.
pub open spec fn string_of(j: Json) -> Option<Seq<char>> {
    match j {
        Json::Str(s) => Some(s),
        _ => None,
    }
}

/// The text of the string member under `key`.
pub open spec fn string_member(j: Json, key: Seq<char>) -> Option<Seq<char>> {
    match member(j, key) {
        Some(v) => string_of(v),
        None => None,
    }
}

/// The text of the string member under `key`, empty where there is none.
pub open spec fn text_member(j: Json, key: Seq<char>) -> Seq<char> {
    match string_member(j, key) {
        Some(s) => s,
        None => Seq::empty(),
    }
}

/// The items of the array member under `key`.
pub open spec fn array_member(j: Json, key: Seq<char>) -> Option<Seq<Json>> {
    match member(j, key) {
        Some(Json::Array(items)) => Some(items),
        _ => None,
    }
}

/// An object with one member set. A value that is no object has no place for
/// one.
pub open spec fn with_member(j: Json, key: Seq<char>, v: Json) -> Json {
    match j {
        Json::Object(m) => Json::Object(m.insert(key, v)),
        _ => j,
    }
}

/// The members with one more, where there is one to add.
pub open spec fn with_opt(m: Map<Seq<char>, Json>, key: Seq<char>, v: Option<Json>) -> Map<
    Seq<char>,
    Json,
> {
    match v {
        Some(j) => m.insert(key, j),
        None => m,
    }
}

/// What an optional value is.
pub open spec fn opt_json(v: Option<serde_json::Value>) -> Option<Json> {
    match v {
        Some(v) => Some(json_of(v)),
        None => None,
    }
}

/// A string where there is a text.
pub open spec fn opt_string(s: Option<Seq<char>>) -> Option<Json> {
    match s {
        Some(s) => Some(Json::Str(s)),
        None => None,
    }
}

/// A truth value where there is one.
pub open spec fn opt_bool(b: Option<bool>) -> Option<Json> {
    match b {
        Some(b) => Some(Json::Bool(b)),
        None => None,
    }
}

/// The object without members.
pub open spec fn no_members() -> Map<Seq<char>, Json> {
    Map::empty()
}

/// There are `n` members.
pub open spec fn counts(m: Map<Seq<char>, Json>, n: nat) -> bool {
    &&& m.dom().finite()
    &&& m.dom().len() == n
}

/// What each value of a sequence is.
pub open spec fn jsons_of(values: Seq<serde_json::Value>) -> Seq<Json> {
    values.map_values(|v: serde_json::Value| json_of(v))
}

/// `serde_json::Value`, a JSON value.
#[verifier::external_type_specification]
#[verifier::external_body]
pub struct ExValue(serde_json::Value);

/// `serde_json::Map`, the members of a JSON object.
#[verifier::external_type_specification]
#[verifier::external_body]
#[verifier::reject_recursive_types(K)]
#[verifier::reject_recursive_types(V)]
pub struct ExMembers<K, V>(serde_json::Map<K, V>);

/// What a `serde_json::Value` holds.
pub uninterp spec fn json_of(v: serde_json::Value) -> Json;

/// What a `serde_json::Map` holds.
pub uninterp spec fn members_of(m: serde_json::Map<String, serde_json::Value>) -> Map<
    Seq<char>,
    Json,
>;

/// The compact text that `serde_json` writes for a value.
pub uninterp spec fn json_text(j: Json) -> Seq<char>;

/// The value that `serde_json` reads from a text, or the message of the error it
/// reports instead.
pub uninterp spec fn json_parse(text: Seq<char>) -> Result<Json, Seq<char>>;

/// `Value::as_str`: the text of a string, nothing for any other value.
pub assume_specification[ serde_json::Value::as_str ](v: &serde_json::Value) -> (r: Option<&str>)
    ensures
        match json_of(*v) {
            Json::Str(s) => r matches Some(t) && t@ == s,
            _ => r is None,
        },
;

/// `Value::as_array`: the items of an array in order, nothing for any other value.
pub assume_specification[ serde_json::Value::as_array ](v: &serde_json::Value) -> (r: Option<
    &Vec<serde_json::Value>,
>)
    ensures
        match json_of(*v) {
            Json::Array(items) => r matches Some(a) && jsons_of(a@) == items,
            _ => r is None,
        },
;

/// `Value::as_object`: the members of an object, nothing for any other value.
pub assume_specification[ serde_json::Value::as_object ](v: &serde_json::Value) -> (r: Option<
    &serde_json::Map<String, serde_json::Value>,
>)
    ensures
        match json_of(*v) {
            Json::Object(m) => r matches Some(p) && members_of(*p) == m,
            _ => r is None,
        },
;

/// `Map::len`: how many members there are; there are never infinitely many.
pub assume_specification[ serde_json::Map::<String, serde_json::Value>::len ](
    m: &serde_json::Map<String, serde_json::Value>,
) -> (r: usize)
    ensures
        counts(members_of(*m), r as nat),
;

/// `Value::as_object_mut`: the members of an object, to be changed in place;
/// nothing for any other value, which then stays as it is.
pub assume_specification[ serde_json::Value::as_object_mut ](v: &mut serde_json::Value) -> (r:
    Option<&mut serde_json::Map<String, serde_json::Value>>)
    ensures
        match json_of(*old(v)) {
            Json::Object(m) => r matches Some(p) && members_of(*p) == m && json_of(*final(v))
                == Json::Object(members_of(*final(p))),
            _ => r is None && *final(v) == *old(v),
        },
;

/// `Value::is_null`: whether the value is `null`.
pub assume_specification[ serde_json::Value::is_null ](v: &serde_json::Value) -> (r: bool)
    ensures
        r == (json_of(*v) == Json::Null),
;

/// `Value::clone`: a value that holds the same.
pub assume_specification[ <serde_json::Value as Clone>::clone ](v: &serde_json::Value) -> (r:
    serde_json::Value)
    ensures
        json_of(r) == json_of(*v),
;

/// `Map::new`: no members.
pub assume_specification[ serde_json::Map::<String, serde_json::Value>::new ]() -> (r:
    serde_json::Map<String, serde_json::Value>)
    ensures
        members_of(r) == no_members(),
;

/// `Map::insert`: adds a member, in the place of one under the same key.
pub assume_specification[ serde_json::Map::<String, serde_json::Value>::insert ](
    m: &mut serde_json::Map<String, serde_json::Value>,
    k: String,
    v: serde_json::Value,
) -> (r: Option<serde_json::Value>)
    ensures
        members_of(*final(m)) == members_of(*old(m)).insert(k@, json_of(v)),
        match r {
            Some(before) => members_of(*old(m)).dom().contains(k@) && json_of(before)
                == members_of(*old(m))[k@],
            None => !members_of(*old(m)).dom().contains(k@),
        },
;

/// `Value::get` with a string: the member of an object under that key, nothing
/// where there is none or the value is no object.
#[verifier::external_body]
pub(crate) fn get<'a>(v: &'a serde_json::Value, key: &str) -> (r: Option<&'a serde_json::Value>)
    ensures
        match member(json_of(*v), key@) {
            Some(j) => r matches Some(m) && json_of(*m) == j,
            None => r is None,
        },
{
    v.get(key)
}

/// `Value::Null`.
#[verifier::external_body]
pub(crate) fn null() -> (r: serde_json::Value)
    ensures
        json_of(r) == Json::Null,
{
    serde_json::Value::Null
}

/// `Value::from` a `bool`: that truth value.
#[verifier::external_body]
pub(crate) fn boolean(b: bool) -> (r: serde_json::Value)
    ensures
        json_of(r) == Json::Bool(b),
{
    serde_json::Value::from(b)
}

/// `Value::from` a `u32`: that integer.
#[verifier::external_body]
pub(crate) fn number(n: u32) -> (r: serde_json::Value)
    ensures
        json_of(r) == Json::Int(n as int),
{
    serde_json::Value::from(n)
}

/// `Value::from` a `&str`: a string with that text.
#[verifier::external_body]
pub(crate) fn string(s: &str) -> (r: serde_json::Value)
    ensures
        json_of(r) == Json::Str(s@),
{
    serde_json::Value::from(s)
}

/// `Value::Array`: an array with those items in that order.
#[verifier::external_body]
pub(crate) fn array(items: Vec<serde_json::Value>) -> (r: serde_json::Value)
    ensures
        json_of(r) == Json::Array(jsons_of(items@)),
{
    serde_json::Value::Array(items)
}

/// `Value::Object`: an object with those members.
#[verifier::external_body]
pub(crate) fn object(members: serde_json::Map<String, serde_json::Value>) -> (r: serde_json::Value)
    ensures
        json_of(r) == Json::Object(members_of(members)),
{
    serde_json::Value::Object(members)
}

/// `Value::to_string`: the compact text of the value, which depends on nothing
/// but what the value is; members come in the order of their keys. Which text
/// that is goes unsaid.
#[verifier::external_body]
pub(crate) fn text(v: &serde_json::Value) -> (r: String)
    ensures
        r@ == json_text(json_of(*v)),
{
    v.to_string()
}

/// `serde_json::from_str` into a `Value`, an error taken by its message: what
/// comes back depends on nothing but the text. Which texts are JSON, and what
/// the messages say, goes unsaid.
#[verifier::external_body]
pub(crate) fn parse(text: &str) -> (r: Result<serde_json::Value, String>)
    ensures
        match r {
            Ok(v) => json_parse(text@) == Ok::<Json, Seq<char>>(json_of(v)),
            Err(e) => json_parse(text@) == Err::<Json, Seq<char>>(e@),
        },
{
    serde_json::from_str(text).map_err(|e: serde_json::Error| e.to_string())
}

/// Adds the member `key`.
pub(crate) fn put(
    m: &mut serde_json::Map<String, serde_json::Value>,
    key: &str,
    v: serde_json::Value,
)
    ensures
        members_of(*final(m)) == members_of(*old(m)).insert(key@, json_of(v)),
{
    let _ = m.insert(key.to_owned(), v);
}

/// An object with one member set, see [`with_member`].
pub(crate) fn set_member(value: serde_json::Value, key: &str, v: serde_json::Value) -> (r:
    serde_json::Value)
    ensures
        json_of(r) == with_member(json_of(value), key@, json_of(v)),
{
    let mut value = value;
    match value.as_object_mut() {
        Some(m) => {
            put(m, key, v);
        },
        None => {},
    }
    value
}

/// How many members an object has; nothing for any other value.
pub(crate) fn member_count(v: &serde_json::Value) -> (r: Option<usize>)
    ensures
        match json_of(*v) {
            Json::Object(m) => r matches Some(n) && counts(m, n as nat),
            _ => r is None,
        },
{
    match v.as_object() {
        Some(m) => Some(m.len()),
        None => None,
    }
}

/// Adds the member `key`, where there is one to add.
pub(crate) fn put_opt(
    m: &mut serde_json::Map<String, serde_json::Value>,
    key: &str,
    v: Option<serde_json::Value>,
)
    ensures
        members_of(*final(m)) == with_opt(members_of(*old(m)), key@, opt_json(v)),
{
    match v {
        Some(v) => put(m, key, v),
        None => {},
    }
}

/// A copy of an optional value.
pub(crate) fn copy_opt(v: &Option<serde_json::Value>) -> (r: Option<serde_json::Value>)
    ensures
        opt_json(r) == opt_json(*v),
{
    match v {
        Some(v) => Some(v.clone()),
        None => None,
    }
}

/// A string where there is a text.
pub(crate) fn from_opt_string(s: &Option<String>) -> (r: Option<serde_json::Value>)
    ensures
        opt_json(r) == opt_string(text::opt_text(*s)),
{
    match s {
        Some(s) => Some(string(s.as_str())),
        None => None,
    }
}

/// A truth value where there is one.
pub(crate) fn from_opt_bool(b: Option<bool>) -> (r: Option<serde_json::Value>)
    ensures
        opt_json(r) == opt_bool(b),
{
    match b {
        Some(b) => Some(boolean(b)),
        None => None,
    }
}

/// The text of the string member under `key`.
pub(crate) fn get_str<'a>(v: &'a serde_json::Value, key: &str) -> (r: Option<&'a str>)
    ensures
        match string_member(json_of(*v), key@) {
            Some(s) => r matches Some(t) && t@ == s,
            None => r is None,
        },
{
    match get(v, key) {
        Some(m) => m.as_str(),
        None => None,
    }
}

/// The text of the string member under `key`, empty where there is none.
pub fn str_field(v: &serde_json::Value, key: &str) -> (r: String)
    ensures
        r@ == text_member(json_of(*v), key@),
{
    match get_str(v, key) {
        Some(s) => s.to_owned(),
        None => String::new(),
    }
}

/// The items of the array member under `key`.
pub(crate) fn get_array<'a>(v: &'a serde_json::Value, key: &str) -> (r: Option<
    &'a Vec<serde_json::Value>,
>)
    ensures
        match array_member(json_of(*v), key@) {
            Some(items) => r matches Some(a) && jsons_of(a@) == items,
            None => r is None,
        },
{
    match get(v, key) {
        Some(m) => m.as_array(),
        None => None,
    }
}

/// Members that hold all of the expected ones, and are no more of them, are the
/// expected ones.
pub proof fn lemma_no_other_members(m: Map<Seq<char>, Json>, expected: Map<Seq<char>, Json>)
    requires
        m.dom().finite(),
        expected.dom().finite(),
        m.dom().len() == expected.dom().len(),
        forall|k: Seq<char>| #[trigger]
            expected.dom().contains(k) ==> m.dom().contains(k) && m[k] == expected[k],
    ensures
        m == expected,
{
    vstd::set_lib::lemma_subset_equality(expected.dom(), m.dom());
    assert(m =~= expected);
}

/// A longer sequence of values is a longer sequence of what they are.
pub proof fn lemma_jsons_push(values: Seq<serde_json::Value>, v: serde_json::Value)
    ensures
        jsons_of(values.push(v)) == jsons_of(values).push(json_of(v)),
{
    assert(jsons_of(values.push(v)) =~= jsons_of(values).push(json_of(v)));
}

/// What it means to have a member, and to have it as a text or as a list: an
/// object has the members it was given, and nothing else has any.
pub proof fn members_are_what_was_given(m: Map<Seq<char>, Json>, key: Seq<char>, j: Json)
    ensures
        m.dom().contains(key) ==> member(Json::Object(m), key) == Some(m[key]),
        !m.dom().contains(key) ==> member(Json::Object(m), key) is None,
        !(j is Object) ==> member(j, key) is None,
        string_member(j, key) == match member(j, key) {
            Some(Json::Str(s)) => Some(s),
            _ => None,
        },
        text_member(j, key) == match member(j, key) {
            Some(Json::Str(s)) => s,
            _ => Seq::empty(),
        },
        array_member(j, key) == match member(j, key) {
            Some(Json::Array(items)) => Some(items),
            _ => None,
        },
{
}

/// A member that is set is there, and every other member stays; a value that is
/// no object stays as it is.
pub proof fn set_members_are_there(j: Json, key: Seq<char>, v: Json, other: Seq<char>)
    ensures
        j is Object ==> member(with_member(j, key, v), key) == Some(v),
        j is Object && other != key ==> member(with_member(j, key, v), other) == member(j, other),
        j is Object ==> with_member(j, key, v) is Object,
        !(j is Object) ==> with_member(j, key, v) == j,
{
}

/// Values are seen one by one, in order.
pub proof fn values_are_seen_in_order(values: Seq<serde_json::Value>, i: int)
    ensures
        jsons_of(values).len() == values.len(),
        0 <= i < values.len() ==> jsons_of(values)[i] == json_of(values[i]),
{
}

} // verus!
