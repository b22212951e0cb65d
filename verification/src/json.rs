//! JSON documents as `serde_json` holds them, and the mathematical model by
//! which the contracts of this crate read them.
//!
//! A document stays a `serde_json::Value`. Its content is named by
//! [`json_model`]; the functions in the first half of this file are the only
//! ones that touch `serde_json`, and their contracts are taken on trust from
//! its source. Everything after them is proved.

use vstd::prelude::*;

verus! {

/// The mathematical content of a JSON document.
pub enum JsonModel {
    /// `null`.
    Null,
    /// `true` or `false`.
    Bool(bool),
    /// A number written without fraction or exponent that fits `i64` or `u64`.
    Integer(int),
    /// Any other number, by the 64 bits of its binary representation.
    Fraction(u64),
    /// A string.
    Text(Seq<char>),
    /// An array.
    Array(Seq<JsonModel>),
    /// An object; a key occurs once.
    Object(Map<Seq<char>, JsonModel>),
}

#[verifier::external_type_specification]
#[verifier::external_body]
pub struct ExValue(serde_json::Value);

#[verifier::external_type_specification]
#[verifier::external_body]
pub struct ExJsonError(serde_json::Error);

#[verifier::external_type_specification]
#[verifier::external_body]
#[verifier::reject_recursive_types(K)]
#[verifier::reject_recursive_types(V)]
pub struct ExJsonMap<K, V>(serde_json::Map<K, V>);

/// What a document holds.
pub uninterp spec fn json_model(v: serde_json::Value) -> JsonModel;

/// What the members of an object hold, each under its key.
pub uninterp spec fn json_members(members: serde_json::Map<String, serde_json::Value>) -> Map<
    Seq<char>,
    JsonModel,
>;

/// What `serde_json::from_str` makes of a text: the document it reads, or
/// `None` where it reports an error.
pub uninterp spec fn json_parse(text: Seq<char>) -> Option<JsonModel>;

/// The compact text that `serde_json` writes for a document.
pub uninterp spec fn json_text(m: JsonModel) -> Seq<char>;

/// The text that `serde_json` writes for a document when it is shown for
/// debugging.
pub uninterp spec fn json_debug_text(m: JsonModel) -> Seq<char>;

/// `serde_json::from_str` at type `Value`: succeeds exactly where
/// [`json_parse`] has a document, and returns that document.
#[verifier::external_body]
pub(crate) fn value_parse(text: &str) -> (r: Result<serde_json::Value, serde_json::Error>)
    ensures
        match r {
            Ok(v) => json_parse(text@) == Some(json_model(v)),
            Err(_) => json_parse(text@) is None,
        },
{
    serde_json::from_str::<serde_json::Value>(text)
}

/// The `Display` text of a `serde_json::Error`. Nothing is claimed of it.
#[verifier::external_body]
pub(crate) fn error_text(e: &serde_json::Error) -> (r: String) {
    e.to_string()
}

/// The `Debug` text of a `Value`, which is a function of what it holds.
#[verifier::external_body]
pub(crate) fn value_debug(v: &serde_json::Value) -> (r: String)
    ensures
        r@ == json_debug_text(json_model(*v)),
{
    format!("{:?}", v)
}

/// The `Display` text of a `Value`, which is its compact serialisation.
#[verifier::external_body]
pub(crate) fn value_text(v: &serde_json::Value) -> (r: String)
    ensures
        r@ == json_text(json_model(*v)),
{
    v.to_string()
}

/// `Value::clone`: a document with the same content.
pub assume_specification[ <serde_json::Value as Clone>::clone ](v: &serde_json::Value) -> (r:
    serde_json::Value)
    ensures
        json_model(r) == json_model(*v),
;

/// `Value::get` with a string key: the member of an object under that key,
/// and `None` where the document is no object or has no such member.
#[verifier::external_body]
pub(crate) fn value_get<'a>(v: &'a serde_json::Value, key: &str) -> (r: Option<
    &'a serde_json::Value,
>)
    ensures
        match r {
            Some(x) => member(json_model(*v), key@) == Some(json_model(*x)),
            None => member(json_model(*v), key@) is None,
        },
{
    v.get(key)
}

/// `Value::get` with a number: the element of an array at that place, and
/// `None` where the document is no array or has no such place.
#[verifier::external_body]
pub(crate) fn value_get_index(v: &serde_json::Value, index: usize) -> (r: Option<
    &serde_json::Value,
>)
    ensures
        match r {
            Some(x) => element(json_model(*v), index as int) == Some(json_model(*x)),
            None => element(json_model(*v), index as int) is None,
        },
{
    v.get(index)
}

/// `Value::is_null`.
#[verifier::external_body]
pub(crate) fn value_is_null(v: &serde_json::Value) -> (r: bool)
    ensures
        r == (json_model(*v) is Null),
{
    v.is_null()
}

/// `Value::is_object`.
#[verifier::external_body]
pub(crate) fn value_is_object(v: &serde_json::Value) -> (r: bool)
    ensures
        r == (json_model(*v) is Object),
{
    v.is_object()
}

/// `Value::as_str`: the text of a string, `None` for any other document.
#[verifier::external_body]
pub(crate) fn value_as_str(v: &serde_json::Value) -> (r: Option<&str>)
    ensures
        match r {
            Some(s) => text_of(json_model(*v)) == Some(s@),
            None => text_of(json_model(*v)) is None,
        },
{
    v.as_str()
}

/// `Value::as_bool`: the value of a boolean, `None` for any other document.
#[verifier::external_body]
pub(crate) fn value_as_bool(v: &serde_json::Value) -> (r: Option<bool>)
    ensures
        r == bool_of(json_model(*v)),
{
    v.as_bool()
}

/// `Value::as_i64`: the value of an integer number that fits `i64`, `None`
/// for a larger one, for a number with a fraction and for any other document.
#[verifier::external_body]
pub(crate) fn value_as_i64(v: &serde_json::Value) -> (r: Option<i64>)
    ensures
        r == i64_of(json_model(*v)),
{
    v.as_i64()
}

/// `Value::as_array`: the elements of an array in their order, `None` for
/// any other document.
#[verifier::external_body]
pub(crate) fn value_as_array(v: &serde_json::Value) -> (r: Option<&Vec<serde_json::Value>>)
    ensures
        match r {
            Some(items) => items_of(json_model(*v)) == Some(models(items@)),
            None => items_of(json_model(*v)) is None,
        },
{
    v.as_array()
}

/// `Value::as_object`: the members of an object, `None` for any other
/// document.
#[verifier::external_body]
pub(crate) fn value_as_object(v: &serde_json::Value) -> (r: Option<
    &serde_json::Map<String, serde_json::Value>,
>)
    ensures
        match r {
            Some(members) => json_model(*v) == JsonModel::Object(json_members(*members)),
            None => !(json_model(*v) is Object),
        },
{
    v.as_object()
}

/// `Map::iter`: every member once, under its key.
#[verifier::external_body]
pub(crate) fn members_list(members: &serde_json::Map<String, serde_json::Value>) -> (r: Vec<
    (String, &serde_json::Value),
>)
    ensures
        lists_members(r@, json_members(*members)),
{
    members.iter().map(|(k, x)| (k.clone(), x)).collect()
}

/// `Value::Null`.
#[verifier::external_body]
pub(crate) fn value_null() -> (r: serde_json::Value)
    ensures
        json_model(r) == JsonModel::Null,
{
    serde_json::Value::Null
}

/// `Value::Bool`.
#[verifier::external_body]
pub(crate) fn value_bool(b: bool) -> (r: serde_json::Value)
    ensures
        json_model(r) == JsonModel::Bool(b),
{
    serde_json::Value::Bool(b)
}

/// `Value::from` for `i64`: the integer number of that value.
#[verifier::external_body]
pub(crate) fn value_i64(n: i64) -> (r: serde_json::Value)
    ensures
        json_model(r) == JsonModel::Integer(n as int),
{
    serde_json::Value::from(n)
}

/// `Value::from` for `u64`: the integer number of that value.
#[verifier::external_body]
pub(crate) fn value_u64(n: u64) -> (r: serde_json::Value)
    ensures
        json_model(r) == JsonModel::Integer(n as int),
{
    serde_json::Value::from(n)
}

/// `Value::String`.
#[verifier::external_body]
pub(crate) fn value_string(s: String) -> (r: serde_json::Value)
    ensures
        json_model(r) == JsonModel::Text(s@),
{
    serde_json::Value::String(s)
}

/// `Value::Array`.
#[verifier::external_body]
pub(crate) fn value_array(items: Vec<serde_json::Value>) -> (r: serde_json::Value)
    ensures
        json_model(r) == JsonModel::Array(models(items@)),
{
    serde_json::Value::Array(items)
}

/// `Value::Object` of `Map::new`: the object without members.
#[verifier::external_body]
pub(crate) fn value_object() -> (r: serde_json::Value)
    ensures
        json_model(r) == JsonModel::Object(Map::empty()),
{
    serde_json::Value::Object(serde_json::Map::new())
}

/// Assignment through `Value`'s `IndexMut` with a string key: on an object
/// it sets the member under the key, new or not, and leaves the others.
#[verifier::external_body]
pub(crate) fn value_set(v: &mut serde_json::Value, key: &str, x: serde_json::Value)
    requires
        json_model(*old(v)) is Object,
    ensures
        json_model(*final(v)) == JsonModel::Object(
            json_model(*old(v))->Object_0.insert(key@, json_model(x)),
        ),
{
    v[key] = x;
}

/// The contents of a list of documents.
pub open spec fn models(items: Seq<serde_json::Value>) -> Seq<JsonModel> {
    Seq::new(items.len(), |i: int| json_model(items[i]))
}

/// `entries` holds each member of `members` once, under its key.
pub open spec fn lists_members(
    entries: Seq<(String, &serde_json::Value)>,
    members: Map<Seq<char>, JsonModel>,
) -> bool {
    &&& forall|i: int|
        0 <= i < entries.len() ==> members.contains_key(#[trigger] entries[i].0@)
            && json_model(*entries[i].1) == members[entries[i].0@]
    &&& forall|i: int, j: int|
        0 <= i < j < entries.len() ==> #[trigger] entries[i].0@ != #[trigger] entries[j].0@
    &&& forall|k: Seq<char>| #[trigger]
        members.contains_key(k) ==> exists|i: int|
            0 <= i < entries.len() && #[trigger] entries[i].0@ == k
}

/// The member of an object under `key`.
pub open spec fn member(m: JsonModel, key: Seq<char>) -> Option<JsonModel> {
    match m {
        JsonModel::Object(members) => if members.contains_key(key) {
            Some(members[key])
        } else {
            None
        },
        _ => None,
    }
}

/// The element of an array at a place.
pub open spec fn element(m: JsonModel, index: int) -> Option<JsonModel> {
    match m {
        JsonModel::Array(items) => if 0 <= index < items.len() {
            Some(items[index])
        } else {
            None
        },
        _ => None,
    }
}

/// The elements of an array, and none for any other document.
pub open spec fn items_or_empty(m: JsonModel) -> Seq<JsonModel> {
    match m {
        JsonModel::Array(items) => items,
        _ => Seq::empty(),
    }
}

/// The text of a string document.
pub open spec fn text_of(m: JsonModel) -> Option<Seq<char>> {
    match m {
        JsonModel::Text(s) => Some(s),
        _ => None,
    }
}

/// The value of a boolean document.
pub open spec fn bool_of(m: JsonModel) -> Option<bool> {
    match m {
        JsonModel::Bool(b) => Some(b),
        _ => None,
    }
}

/// The value of an integer document that fits `i64`.
pub open spec fn i64_of(m: JsonModel) -> Option<i64> {
    match m {
        JsonModel::Integer(i) => if i64::MIN <= i <= i64::MAX {
            Some(i as i64)
        } else {
            None
        },
        _ => None,
    }
}

/// The elements of an array document.
pub open spec fn items_of(m: JsonModel) -> Option<Seq<JsonModel>> {
    match m {
        JsonModel::Array(items) => Some(items),
        _ => None,
    }
}

/// The member under `key`, or `absent` where there is none.
pub open spec fn member_or(m: JsonModel, key: Seq<char>, absent: JsonModel) -> JsonModel {
    match member(m, key) {
        Some(x) => x,
        None => absent,
    }
}

/// The text under `key` where a string stands there.
pub open spec fn text_at(m: JsonModel, key: Seq<char>) -> Option<Seq<char>> {
    match member(m, key) {
        Some(x) => text_of(x),
        None => None,
    }
}

/// The text under `key`; the empty text where the key is absent; nothing
/// where something other than a string stands there.
pub open spec fn text_strict(m: JsonModel, key: Seq<char>) -> Option<Seq<char>> {
    text_of(member_or(m, key, JsonModel::Text(Seq::empty())))
}

/// The text under `key`; the empty text where the key is absent; `other`
/// where something other than a string stands there.
pub open spec fn text_or(m: JsonModel, key: Seq<char>, other: Seq<char>) -> Seq<char> {
    match text_strict(m, key) {
        Some(s) => s,
        None => other,
    }
}

/// The text under `key`; `absent` where the key is absent; nothing where
/// something other than a string stands there.
pub open spec fn text_strict_or(m: JsonModel, key: Seq<char>, absent: Seq<char>) -> Option<
    Seq<char>,
> {
    text_of(member_or(m, key, JsonModel::Text(absent)))
}

/// The text under `key`; `absent` where the key is absent; `other` where
/// something other than a string stands there.
pub open spec fn text_or_else(
    m: JsonModel,
    key: Seq<char>,
    absent: Seq<char>,
    other: Seq<char>,
) -> Seq<char> {
    match text_strict_or(m, key, absent) {
        Some(s) => s,
        None => other,
    }
}

/// The boolean under `key`; `absent` where the key is absent; nothing where
/// something other than a boolean stands there.
pub open spec fn bool_strict(m: JsonModel, key: Seq<char>, absent: bool) -> Option<bool> {
    bool_of(member_or(m, key, JsonModel::Bool(absent)))
}

/// The boolean under `key`; `absent` where the key is absent or something
/// other than a boolean stands there.
pub open spec fn bool_or(m: JsonModel, key: Seq<char>, absent: bool) -> bool {
    match bool_strict(m, key, absent) {
        Some(b) => b,
        None => absent,
    }
}

/// The integer under `key` where an integer that fits `i64` stands there.
pub open spec fn i64_at(m: JsonModel, key: Seq<char>) -> Option<i64> {
    match member(m, key) {
        Some(x) => i64_of(x),
        None => None,
    }
}

/// The integer under `key`; `absent` where the key is absent; nothing where
/// something other than an integer that fits `i64` stands there.
pub open spec fn i64_strict(m: JsonModel, key: Seq<char>, absent: i64) -> Option<i64> {
    i64_of(member_or(m, key, JsonModel::Integer(absent as int)))
}

/// The integer under `key`; `absent` where the key is absent or something
/// other than an integer that fits `i64` stands there.
pub open spec fn i64_or(m: JsonModel, key: Seq<char>, absent: i64) -> i64 {
    match i64_strict(m, key, absent) {
        Some(i) => i,
        None => absent,
    }
}

/// The elements under `key`; none where the key is absent; nothing where
/// something other than an array stands there.
pub open spec fn items_strict(m: JsonModel, key: Seq<char>) -> Option<Seq<JsonModel>> {
    items_of(member_or(m, key, JsonModel::Array(Seq::empty())))
}

/// The elements under `key`; none where the key is absent or something other
/// than an array stands there.
pub open spec fn items_or_none(m: JsonModel, key: Seq<char>) -> Seq<JsonModel> {
    match items_strict(m, key) {
        Some(items) => items,
        None => Seq::empty(),
    }
}

/// An object of one member.
pub open spec fn object1(k1: Seq<char>, v1: JsonModel) -> JsonModel {
    JsonModel::Object(Map::empty().insert(k1, v1))
}

/// The members of an object, each key once and beside its member; `None`
/// for any other document.
pub fn value_entries(v: &serde_json::Value) -> (r: Option<Vec<(String, &serde_json::Value)>>)
    ensures
        match r {
            Some(es) => json_model(*v) is Object && lists_members(
                es@,
                json_model(*v)->Object_0,
            ),
            None => !(json_model(*v) is Object),
        },
{
    match value_as_object(v) {
        Some(members) => Some(members_list(members)),
        None => None,
    }
}

/// Reads a text as a JSON document.
pub fn parse(text: &str) -> (r: Result<serde_json::Value, String>)
    ensures
        match r {
            Ok(v) => json_parse(text@) == Some(json_model(v)),
            Err(_) => json_parse(text@) is None,
        },
{
    match value_parse(text) {
        Ok(v) => Ok(v),
        Err(e) => Err(error_text(&e)),
    }
}

/// Exec form of [`text_at`].
pub fn get_text(v: &serde_json::Value, key: &str) -> (r: Option<String>)
    ensures
        match r {
            Some(s) => text_at(json_model(*v), key@) == Some(s@),
            None => text_at(json_model(*v), key@) is None,
        },
{
    match value_get(v, key) {
        Some(x) => match value_as_str(x) {
            Some(s) => Some(s.to_owned()),
            None => None,
        },
        None => None,
    }
}

/// Exec form of [`text_strict`].
pub fn get_text_strict(v: &serde_json::Value, key: &str) -> (r: Option<String>)
    ensures
        match r {
            Some(s) => text_strict(json_model(*v), key@) == Some(s@),
            None => text_strict(json_model(*v), key@) is None,
        },
{
    match value_get(v, key) {
        Some(x) => match value_as_str(x) {
            Some(s) => Some(s.to_owned()),
            None => None,
        },
        None => Some(String::new()),
    }
}

/// Exec form of [`text_strict_or`].
pub fn get_text_strict_or(v: &serde_json::Value, key: &str, absent: &str) -> (r: Option<String>)
    ensures
        match r {
            Some(s) => text_strict_or(json_model(*v), key@, absent@) == Some(s@),
            None => text_strict_or(json_model(*v), key@, absent@) is None,
        },
{
    match value_get(v, key) {
        Some(x) => match value_as_str(x) {
            Some(s) => Some(s.to_owned()),
            None => None,
        },
        None => Some(absent.to_owned()),
    }
}

/// Exec form of [`text_or_else`].
pub fn get_text_or_else(v: &serde_json::Value, key: &str, absent: &str, other: &str) -> (r:
    String)
    ensures
        r@ == text_or_else(json_model(*v), key@, absent@, other@),
{
    match get_text_strict_or(v, key, absent) {
        Some(s) => s,
        None => other.to_owned(),
    }
}

/// Exec form of [`text_or`].
pub fn get_text_or(v: &serde_json::Value, key: &str, other: &str) -> (r: String)
    ensures
        r@ == text_or(json_model(*v), key@, other@),
{
    match get_text_strict(v, key) {
        Some(s) => s,
        None => other.to_owned(),
    }
}

/// Exec form of [`bool_strict`].
pub fn get_bool_strict(v: &serde_json::Value, key: &str, absent: bool) -> (r: Option<bool>)
    ensures
        r == bool_strict(json_model(*v), key@, absent),
{
    match value_get(v, key) {
        Some(x) => value_as_bool(x),
        None => Some(absent),
    }
}

/// Exec form of [`bool_or`].
pub fn get_bool_or(v: &serde_json::Value, key: &str, absent: bool) -> (r: bool)
    ensures
        r == bool_or(json_model(*v), key@, absent),
{
    match get_bool_strict(v, key, absent) {
        Some(b) => b,
        None => absent,
    }
}

/// Exec form of [`i64_at`].
pub fn get_i64(v: &serde_json::Value, key: &str) -> (r: Option<i64>)
    ensures
        r == i64_at(json_model(*v), key@),
{
    match value_get(v, key) {
        Some(x) => value_as_i64(x),
        None => None,
    }
}

/// Exec form of [`i64_strict`].
pub fn get_i64_strict(v: &serde_json::Value, key: &str, absent: i64) -> (r: Option<i64>)
    ensures
        r == i64_strict(json_model(*v), key@, absent),
{
    match value_get(v, key) {
        Some(x) => value_as_i64(x),
        None => Some(absent),
    }
}

/// Exec form of [`i64_or`].
pub fn get_i64_or(v: &serde_json::Value, key: &str, absent: i64) -> (r: i64)
    ensures
        r == i64_or(json_model(*v), key@, absent),
{
    match get_i64_strict(v, key, absent) {
        Some(i) => i,
        None => absent,
    }
}

/// The document of a text.
pub fn text_value(s: &str) -> (r: serde_json::Value)
    ensures
        json_model(r) == JsonModel::Text(s@),
{
    value_string(s.to_owned())
}

/// The document of an optional text: `null` where there is none.
pub fn opt_text_value(s: &Option<String>) -> (r: serde_json::Value)
    ensures
        json_model(r) == opt_text_model(*s),
{
    match s {
        Some(t) => text_value(t.as_str()),
        None => value_null(),
    }
}

/// The content of [`opt_text_value`].
pub open spec fn opt_text_model(s: Option<String>) -> JsonModel {
    match s {
        Some(t) => JsonModel::Text(t@),
        None => JsonModel::Null,
    }
}

} // verus!
