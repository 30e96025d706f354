//! The boundary to the `json` crate.
//!
//! The proxy treats every payload as text; what the `json` crate computes
//! from a given text is a function of that text alone, so each outcome is
//! given a name here and the wrapper that performs the call promises to
//! return the named value. All verified reasoning about JSON payloads goes
//! through these names.

use vstd::prelude::*;

verus! {

/// The compact re-serialization of `s` parsed as JSON, or the parser's
/// error message when `s` is not valid JSON.
pub uninterp spec fn normal_json(s: Seq<char>) -> Result<Seq<char>, Seq<char>>;

/// The object member `key` of `s` parsed as JSON, when `s` is valid JSON
/// and that member is a string; `None` otherwise.
pub uninterp spec fn str_member(s: Seq<char>, key: Seq<char>) -> Option<Seq<char>>;

/// Whether `s`, parsed as JSON, is an object carrying the member `key`;
/// `None` when `s` is not valid JSON.
pub uninterp spec fn has_member(s: Seq<char>, key: Seq<char>) -> Option<bool>;

/// The compact serialization of the object member `key` of `s` parsed as
/// JSON (`"null"` for a missing member or a non-object); `None` when `s`
/// is not valid JSON.
pub uninterp spec fn member_dump(s: Seq<char>, key: Seq<char>) -> Option<Seq<char>>;

/// The boolean at the member path `key1`.`key2` of `s` parsed as JSON;
/// `None` when `s` is not valid JSON or the path does not hold a boolean.
pub uninterp spec fn bool_member2(s: Seq<char>, key1: Seq<char>, key2: Seq<char>) -> Option<bool>;

/// The items of the array at the member path `key1`.`key2` of `s` parsed
/// as JSON, each item reduced to its string value or `None` when it is not
/// a string; an empty sequence when the path holds no array; `None` when
/// `s` is not valid JSON.
pub uninterp spec fn str_items2(s: Seq<char>, key1: Seq<char>, key2: Seq<char>) -> Option<
    Seq<Option<Seq<char>>>,
>;

/// Relies on `json::parse` and `json::JsonValue::dump`: whether a text
/// parses as JSON, its compact form when it does, and the parser's error
/// message when it does not, depend on the text alone.
#[verifier::external_body]
pub fn json_reserialize(text: &str) -> (r: Result<String, String>)
    ensures
        match r {
            Ok(t) => normal_json(text@) == Ok::<Seq<char>, Seq<char>>(t@),
            Err(e) => normal_json(text@) == Err::<Seq<char>, Seq<char>>(e@),
        },
{
    match json::parse(text) {
        Ok(value) => Ok(value.dump()),
        Err(err) => Err(format!("{}", err)),
    }
}

/// Relies on `json::parse` and `json::JsonValue::as_str`: the string value
/// of an object member depends on the text and the key alone.
#[verifier::external_body]
pub fn json_str_member(text: &str, key: &str) -> (r: Option<String>)
    ensures
        match r {
            Some(v) => str_member(text@, key@) == Some(v@),
            None => str_member(text@, key@) is None,
        },
{
    match json::parse(text) {
        Ok(value) => value[key].as_str().map(|s| s.to_owned()),
        Err(_) => None,
    }
}

/// Relies on `json::parse` and `json::JsonValue::has_key`: whether an
/// object carries a member depends on the text and the key alone.
#[verifier::external_body]
pub fn json_has_member(text: &str, key: &str) -> (r: Option<bool>)
    ensures
        has_member(text@, key@) == r,
{
    match json::parse(text) {
        Ok(value) => Some(value.has_key(key)),
        Err(_) => None,
    }
}

/// Relies on `json::parse` and `json::JsonValue::dump`: the compact form
/// of an object member depends on the text and the key alone; the `json`
/// crate serializes a missing member as `null` and dumping a parsed value
/// cannot fail, so this is `None` exactly when the text does not parse.
#[verifier::external_body]
pub fn json_member_dump(text: &str, key: &str) -> (r: Option<String>)
    ensures
        match r {
            Some(v) => member_dump(text@, key@) == Some(v@),
            None => member_dump(text@, key@) is None && normal_json(text@) is Err,
        },
{
    match json::parse(text) {
        Ok(value) => Some(value[key].dump()),
        Err(_) => None,
    }
}

/// Relies on `json::parse` and `json::JsonValue::as_bool`: the boolean at
/// a two-level member path depends on the text and the keys alone.
#[verifier::external_body]
pub fn json_bool_member2(text: &str, key1: &str, key2: &str) -> (r: Option<bool>)
    ensures
        bool_member2(text@, key1@, key2@) == r,
{
    match json::parse(text) {
        Ok(value) => value[key1][key2].as_bool(),
        Err(_) => None,
    }
}

/// Relies on `json::parse`, `json::JsonValue::members` and
/// `json::JsonValue::as_str`: the items of the array at a two-level member
/// path, each taken as a string where it is one, depend on the text and
/// the keys alone; `members` of a non-array yields nothing, so this is
/// `None` exactly when the text does not parse.
#[verifier::external_body]
pub fn json_str_items2(text: &str, key1: &str, key2: &str) -> (r: Option<Vec<Option<String>>>)
    ensures
        r.deep_view() == str_items2(text@, key1@, key2@),
        r is None ==> normal_json(text@) is Err,
{
    match json::parse(text) {
        Ok(value) => Some(
            value[key1][key2].members().map(|m| m.as_str().map(|s| s.to_owned())).collect(),
        ),
        Err(_) => None,
    }
}

} // verus!
