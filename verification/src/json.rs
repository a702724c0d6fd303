//! JSON documents as `serde_json` reads and writes them.
use vstd::prelude::*;
use crate::text::texts_view;

verus! {

/// What a JSON document says.
///
/// Whole numbers are kept by value. Every other number is kept by the text that
/// `serde_json` prints for it.
pub enum Json {
    Null,
    Bool(bool),
    Int(int),
    Real(Seq<char>),
    Text(Seq<char>),
    List(Seq<Json>),
    Object(Map<Seq<char>, Json>),
}

impl Json {
    /// The member under `key`, if this is an object that has one.
    pub open spec fn member(self, key: Seq<char>) -> Option<Json> {
        match self {
            Json::Object(members) => if members.dom().contains(key) {
                Some(members[key])
            } else {
                None
            },
            _ => None,
        }
    }

    /// The member under `key`, or `Null` where there is none.
    pub open spec fn at(self, key: Seq<char>) -> Json {
        match self.member(key) {
            Some(value) => value,
            None => Json::Null,
        }
    }

    /// The text, if this is a string.
    pub open spec fn text(self) -> Option<Seq<char>> {
        match self {
            Json::Text(s) => Some(s),
            _ => None,
        }
    }

    /// The truth value, if this is one.
    pub open spec fn truth(self) -> Option<bool> {
        match self {
            Json::Bool(b) => Some(b),
            _ => None,
        }
    }

    /// The whole number, if this is one that 64 signed bits hold.
    pub open spec fn integer(self) -> Option<i64> {
        match self {
            Json::Int(n) => if i64::MIN <= n <= i64::MAX {
                Some(n as i64)
            } else {
                None
            },
            _ => None,
        }
    }

    /// The elements, if this is a list.
    pub open spec fn elements(self) -> Option<Seq<Json>> {
        match self {
            Json::List(items) => Some(items),
            _ => None,
        }
    }

    /// Null, a truth value, a string or a whole number of 64 signed bits.
    pub open spec fn is_scalar(self) -> bool {
        match self {
            Json::Null => true,
            Json::Bool(_) => true,
            Json::Text(_) => true,
            Json::Int(n) => i64::MIN <= n <= i64::MAX,
            _ => false,
        }
    }

    /// An object whose members are all scalars.
    pub open spec fn is_flat(self) -> bool {
        match self {
            Json::Object(members) => forall|key: Seq<char>| #[trigger]
                members.dom().contains(key) ==> members[key].is_scalar(),
            _ => false,
        }
    }
}

/// Makes `serde_json::Value` known, with nothing known about its inside.
#[verifier::external_type_specification]
#[verifier::external_body]
pub struct ExValue(serde_json::Value);

/// Makes `serde_json::Map` known, with nothing known about its inside.
#[verifier::external_type_specification]
#[verifier::external_body]
#[verifier::reject_recursive_types(K)]
#[verifier::reject_recursive_types(V)]
pub struct ExMembers<K, V>(serde_json::Map<K, V>);

/// What a `serde_json::Value` holds.
pub uninterp spec fn json_of(value: serde_json::Value) -> Json;

/// What each of some `serde_json::Value`s holds.
pub open spec fn jsons_of(values: Seq<serde_json::Value>) -> Seq<Json> {
    values.map_values(|value: serde_json::Value| json_of(value))
}

/// What a `serde_json::Map` holds.
pub uninterp spec fn members_of(members: serde_json::Map<String, serde_json::Value>) -> Map<Seq<char>, Json>;

/// The members of an empty object.
pub open spec fn no_members() -> Map<Seq<char>, Json> {
    Map::empty()
}

/// What `serde_json::from_str` reads a text as, or `None` where it fails.
pub uninterp spec fn json_read(text: Seq<char>) -> Option<Json>;

/// The text that `serde_json` prints for a document. Members are printed in the order
/// of their keys, so that the text is a function of the document. This holds as long as
/// no crate in the build turns on the feature `preserve_order` of `serde_json`, which
/// prints them in the order in which they were inserted.
pub uninterp spec fn json_print(json: Json) -> Seq<char>;

/// Calls `serde_json::from_str` for a `Value`. The result, and whether there is
/// one, depends on the text alone.
#[verifier::external_body]
pub(crate) fn parse_value(text: &str) -> (value: Option<serde_json::Value>)
    ensures
        match value {
            Some(v) => json_read(text@) == Some(json_of(v)),
            None => json_read(text@) is None,
        },
{
    serde_json::from_str::<serde_json::Value>(text).ok()
}

/// What `serde_json::from_str` reads a text as when it is to be a list of strings,
/// or `None` where it fails.
pub uninterp spec fn strings_read(text: Seq<char>) -> Option<Seq<Seq<char>>>;

/// Calls `serde_json::from_str` for a `Vec<String>`. The result, and whether there
/// is one, depends on the text alone.
#[verifier::external_body]
pub(crate) fn parse_strings(text: &str) -> (strings: Option<Vec<String>>)
    ensures
        match strings {
            Some(v) => strings_read(text@) == Some(texts_view(v@)),
            None => strings_read(text@) is None,
        },
{
    serde_json::from_str::<Vec<String>>(text).ok()
}

/// Indexes a `serde_json::Value` with a string (`std::ops::Index`). A missing member,
/// and any member of what is no object, is null.
#[verifier::external_body]
pub(crate) fn value_at<'a>(value: &'a serde_json::Value, key: &str) -> (member: &'a serde_json::Value)
    ensures
        json_of(*member) == json_of(*value).at(key@),
{
    &value[key]
}

/// Calls `serde_json::Value::get` with a string: the member under that key, if
/// the value is an object that has it.
#[verifier::external_body]
pub(crate) fn value_get<'a>(value: &'a serde_json::Value, key: &str) -> (member: Option<
    &'a serde_json::Value,
>)
    ensures
        match member {
            Some(v) => json_of(*value).member(key@) == Some(json_of(*v)),
            None => json_of(*value).member(key@) is None,
        },
{
    value.get(key)
}

/// `serde_json::Value::as_str` gives the text of a string, and nothing for any
/// other value.
pub assume_specification[ serde_json::Value::as_str ](value: &serde_json::Value) -> (text: Option<
    &str,
>)
    ensures
        match text {
            Some(s) => json_of(*value).text() == Some(s@),
            None => json_of(*value).text() is None,
        },
;

/// `serde_json::Value::as_bool` gives the truth value, and nothing for any other
/// value.
pub assume_specification[ serde_json::Value::as_bool ](value: &serde_json::Value) -> (truth: Option<
    bool,
>)
    ensures
        truth == json_of(*value).truth(),
;

/// `serde_json::Value::as_i64` gives a whole number that 64 signed bits hold, and
/// nothing for any other value.
pub assume_specification[ serde_json::Value::as_i64 ](value: &serde_json::Value) -> (number: Option<
    i64,
>)
    ensures
        number == json_of(*value).integer(),
;

/// `serde_json::Value::as_array` gives the elements of a list in their order, and
/// nothing for any other value.
pub assume_specification[ serde_json::Value::as_array ](value: &serde_json::Value) -> (items: Option<
    &Vec<serde_json::Value>,
>)
    ensures
        match items {
            Some(v) => json_of(*value).elements() == Some(jsons_of(v@)),
            None => json_of(*value).elements() is None,
        },
;

/// Calls `serde_json::Map::new`: a map with nothing in it.
#[verifier::external_body]
pub(crate) fn new_members() -> (members: serde_json::Map<String, serde_json::Value>)
    ensures
        members_of(members) == no_members(),
{
    serde_json::Map::new()
}

/// Calls `serde_json::Map::insert`: the value stands under the key afterwards,
/// whatever stood there before.
#[verifier::external_body]
pub(crate) fn insert_member(
    members: &mut serde_json::Map<String, serde_json::Value>,
    key: &str,
    value: serde_json::Value,
)
    ensures
        members_of(*final(members)) == members_of(*old(members)).insert(key@, json_of(value)),
{
    members.insert(key.to_string(), value);
}

/// Calls `serde_json::Value::from` on a string: the value is that string.
#[verifier::external_body]
pub(crate) fn text_value(text: &str) -> (value: serde_json::Value)
    ensures
        json_of(value) == Json::Text(text@),
{
    serde_json::Value::from(text)
}

/// Calls `serde_json::Value::from` on an `i32`: the value is that number.
#[verifier::external_body]
pub(crate) fn int_value(number: i32) -> (value: serde_json::Value)
    ensures
        json_of(value) == Json::Int(number as int),
{
    serde_json::Value::from(number)
}

/// Calls `serde_json::Value::from` on a `bool`: the value is that truth value.
#[verifier::external_body]
pub(crate) fn bool_value(truth: bool) -> (value: serde_json::Value)
    ensures
        json_of(value) == Json::Bool(truth),
{
    serde_json::Value::from(truth)
}

/// Calls `serde_json::Value::from` on a `Vec` of values: the value is the list of them.
#[verifier::external_body]
pub(crate) fn list_value(items: Vec<serde_json::Value>) -> (value: serde_json::Value)
    ensures
        json_of(value) == Json::List(jsons_of(items@)),
{
    serde_json::Value::from(items)
}

/// Calls `serde_json::Value::from` on a `serde_json::Map`: the value is the object with
/// those members.
#[verifier::external_body]
pub(crate) fn object_value(members: serde_json::Map<String, serde_json::Value>) -> (value: serde_json::Value)
    ensures
        json_of(value) == Json::Object(members_of(members)),
{
    serde_json::Value::from(members)
}

/// Calls `to_string` on a `serde_json::Value`: compact text. The text depends on the
/// document alone, and `serde_json::from_str` reads an object of scalars back from it
/// unchanged.
#[verifier::external_body]
pub(crate) fn print_value(value: &serde_json::Value) -> (text: String)
    ensures
        text@ == json_print(json_of(*value)),
        json_of(*value).is_flat() ==> json_read(text@) == Some(json_of(*value)),
{
    value.to_string()
}

/// A member is found under its key and under no other, and only an object has any.
pub proof fn law_members_are_found(json: Json, key: Seq<char>)
    ensures
        match json {
            Json::Object(members) => {
                &&& members.dom().contains(key) ==> {
                    &&& json.member(key) == Some(members[key])
                    &&& json.at(key) == members[key]
                }
                &&& !members.dom().contains(key) ==> {
                    &&& json.member(key) is None
                    &&& json.at(key) == Json::Null
                }
            },
            _ => json.member(key) is None && json.at(key) == Json::Null,
        },
{
}

/// A document reads as what it is and as nothing else: as a text, a truth value, a
/// whole number of 64 signed bits or a list.
pub proof fn law_documents_read_as_what_they_are(json: Json)
    ensures
        forall|text: Seq<char>| json.text() == Some(text) <==> json == Json::Text(text),
        forall|truth: bool| json.truth() == Some(truth) <==> json == Json::Bool(truth),
        forall|n: i64| json.integer() == Some(n) <==> json == Json::Int(n as int),
        forall|items: Seq<Json>| json.elements() == Some(items) <==> json == Json::List(items),
{
}

/// What some documents hold is what each of them holds, in order.
pub proof fn law_lists_hold_each_document(values: Seq<serde_json::Value>)
    ensures
        jsons_of(values).len() == values.len(),
        forall|i: int|
            0 <= i < values.len() ==> #[trigger] jsons_of(values)[i] == json_of(values[i]),
        no_members().dom() == Set::<Seq<char>>::empty(),
{
}

} // verus!
