//! JSON values: what they hold, and the calls into `serde_json` that read, build and print them.
//!
//! Objects are taken as maps, without an order of their members: `serde_json` keeps them sorted by
//! name unless its feature `preserve_order` is switched on, which it is not here.

use vstd::prelude::*;

verus! {

/// A JSON value, which is a collection of members or items unless it is a single datum.
#[verifier::external_type_specification]
#[verifier::external_body]
pub struct ExValue(serde_json::Value);

/// What a JSON value holds.
pub enum Json {
    Null,
    Bool(bool),
    /// A number, as it is printed.
    Number(Seq<char>),
    Str(Seq<char>),
    Array(Seq<Json>),
    Object(Map<Seq<char>, Json>),
}

impl Json {
    /// The member `key` of an object. There is none in any other value.
    pub open spec fn member(self, key: Seq<char>) -> Option<Json> {
        match self {
            Json::Object(members) => if members.contains_key(key) {
                Some(members[key])
            } else {
                None
            },
            _ => None,
        }
    }

    /// The text of a string. There is none in any other value.
    pub open spec fn text(self) -> Option<Seq<char>> {
        match self {
            Json::Str(text) => Some(text),
            _ => None,
        }
    }

    /// The text of the string that the member `key` of an object is.
    pub open spec fn text_member(self, key: Seq<char>) -> Option<Seq<char>> {
        match self.member(key) {
            Some(member) => member.text(),
            None => None,
        }
    }
}

/// What the JSON value `value` holds, with all that is nested in it.
pub uninterp spec fn json_of(value: serde_json::Value) -> Json;

/// What `serde_json::from_str` reads out of `text`, or its message where `text` is not JSON.
pub uninterp spec fn json_parsed(text: Seq<char>) -> Result<Json, Seq<char>>;

/// How `serde_json` prints a value that holds `json`, in its compact form.
pub uninterp spec fn json_printed(json: Json) -> Seq<char>;

/// The members of an object that is made of `members`, which have different keys.
pub open spec fn object_members(members: Seq<(&'static str, serde_json::Value)>) -> Map<
    Seq<char>,
    Json,
>
    decreases members.len(),
{
    if members.len() == 0 {
        Map::empty()
    } else {
        object_members(members.drop_last()).insert(
            members.last().0@,
            json_of(members.last().1),
        )
    }
}

/// Calls `serde_json::from_str` for a `serde_json::Value`, and `to_string` on its error. What
/// comes out depends on the text alone.
#[verifier::external_body]
pub(crate) fn parse_json(text: &str) -> (result: Result<serde_json::Value, String>)
    ensures
        match result {
            Ok(value) => json_parsed(text@) == Ok::<Json, Seq<char>>(json_of(value)),
            Err(message) => json_parsed(text@) == Err::<Json, Seq<char>>(message@),
        },
{
    serde_json::from_str(text).map_err(|error: serde_json::Error| error.to_string())
}

/// Calls `serde_json::Value::get` with a string: the member of that name where the value is an
/// object that has one, and nothing otherwise.
#[verifier::external_body]
pub(crate) fn member<'a>(value: &'a serde_json::Value, key: &str) -> (result: Option<
    &'a serde_json::Value,
>)
    ensures
        match result {
            Some(found) => json_of(*value).member(key@) == Some(json_of(*found)),
            None => json_of(*value).member(key@) is None,
        },
{
    value.get(key)
}

/// Calls `serde_json::Value::as_str`: the text where the value is a string, and nothing
/// otherwise.
#[verifier::external_body]
pub(crate) fn text(value: &serde_json::Value) -> (result: Option<&str>)
    ensures
        match result {
            Some(text) => json_of(*value).text() == Some(text@),
            None => json_of(*value).text() is None,
        },
{
    value.as_str()
}

/// Calls the `to_string` that `serde_json::Value` has from its `Display`. The printed text
/// depends on what the value holds alone, and has no line break in it: there is none between
/// the tokens of the compact form, and inside strings line breaks are escaped.
#[verifier::external_body]
pub(crate) fn print_json(value: &serde_json::Value) -> (result: String)
    ensures
        result@ == json_printed(json_of(*value)),
        !result@.contains('\n'),
{
    value.to_string()
}

/// Calls the `From<&str>` of `serde_json::Value`: a string with that text.
#[verifier::external_body]
pub(crate) fn string_value(text: &str) -> (result: serde_json::Value)
    ensures
        json_of(result) == Json::Str(text@),
{
    serde_json::Value::from(text)
}

/// Calls the `From<Vec<_>>` of `serde_json::Value`: an array of the given values, in order.
#[verifier::external_body]
pub(crate) fn array_value(items: Vec<serde_json::Value>) -> (result: serde_json::Value)
    ensures
        json_of(result) == Json::Array(items@.map_values(|item: serde_json::Value| json_of(item))),
{
    serde_json::Value::from(items)
}

/// Calls the `FromIterator` over pairs of `serde_json::Value`: an object with the given members.
/// Which one is kept of two members with the same key is not documented, so there may be no such
/// members.
#[verifier::external_body]
pub(crate) fn object_value(members: Vec<(&'static str, serde_json::Value)>) -> (result:
    serde_json::Value)
    requires
        forall|i: int, j: int|
            0 <= i < j < members@.len() ==> members@[i].0@ != members@[j].0@,
    ensures
        json_of(result) == Json::Object(object_members(members@)),
{
    members.into_iter().collect()
}

/// Adds a member to those that an object is to be made of.
pub(crate) fn add_member(
    members: &mut Vec<(&'static str, serde_json::Value)>,
    key: &'static str,
    value: serde_json::Value,
)
    ensures
        final(members)@ == old(members)@.push((key, value)),
        object_members(final(members)@) == object_members(old(members)@).insert(
            key@,
            json_of(value),
        ),
{
    members.push((key, value));
    assert(members@.drop_last() =~= old(members)@);
}

/// The text of the string that the member `key` of an object is.
pub fn text_member<'a>(value: &'a serde_json::Value, key: &str) -> (result: Option<&'a str>)
    ensures
        match result {
            Some(text) => json_of(*value).text_member(key@) == Some(text@),
            None => json_of(*value).text_member(key@) is None,
        },
{
    match member(value, key) {
        Some(found) => text(found),
        None => None,
    }
}

/// An object has just the members that it is made of, and nothing else has members or a text but
/// objects and strings.
pub proof fn law_members_and_texts(json: Json, key: Seq<char>, found: Json, text: Seq<char>)
    ensures
        json.member(key) == Some(found) <==> (json matches Json::Object(members)
            && members.contains_key(key) && members[key] == found),
        json.text() == Some(text) <==> json == Json::Str(text),
        json.text_member(key) == Some(text) <==> json.member(key) == Some(Json::Str(text)),
{
}

} // verus!
