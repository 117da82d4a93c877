//! The two calls into `serde_json` that the defaults store makes.
//!
//! Nothing in this file is proved. Each function hands its argument to
//! `serde_json` and gives what comes back a name, so that the contracts of the
//! store can say which members are written and which are read.

use vstd::prelude::*;

verus! {

/// `serde_json::Error`, declared so that the two calls can hand it out. The
/// store reads nothing in it.
#[verifier::external_type_specification]
#[verifier::external_body]
pub struct ExJsonError(serde_json::Error);

/// The text that the pretty printer of `serde_json` writes for one JSON object
/// with these members, each a name and a string, in this order.
pub uninterp spec fn json_object_text(members: Seq<(Seq<char>, Seq<char>)>) -> Seq<char>;

/// The members of the JSON object that `text` spells, each a name and a
/// string, as `serde_json::from_str` reads them into a
/// `BTreeMap<String, String>`: every name once, in ascending order. `None`
/// where it reads none: where `text` is no JSON, no object, or holds a member
/// that is no string.
pub uninterp spec fn json_string_object(text: Seq<char>) -> Option<Seq<(Seq<char>, Seq<char>)>>;

/// Hands the members, as a map, to a `serde_json::Serializer::pretty` that
/// writes into a vector of bytes, through `serde::Serializer::collect_map`.
/// Claimed: it does not fail, since names and values are strings and the
/// vector takes every write; and the text depends on `members` alone.
#[verifier::external_body]
pub(crate) fn to_json_object(members: &Vec<(String, String)>) -> (r: Result<
    String,
    serde_json::Error,
>)
    ensures
        r is Ok,
        r matches Ok(text) ==> text@ == json_object_text(members.deep_view()),
{
    let mut bytes: Vec<u8> = Vec::new();
    let mut serializer = serde_json::Serializer::pretty(&mut bytes);
    let pairs = members.iter().map(|(name, value)| (name.as_str(), value.as_str()));
    let written = serde::Serializer::collect_map(&mut serializer, pairs);
    written.map(|_| String::from_utf8_lossy(&bytes).into_owned())
}

/// Calls `serde_json::from_str` for a `BTreeMap<String, String>` and hands out
/// the map's entries in its own order. Claimed: whether it fails, and the
/// entries where it does not, depend on `text` alone.
#[verifier::external_body]
pub(crate) fn from_json_object(text: &str) -> (r: Result<Vec<(String, String)>, serde_json::Error>)
    ensures
        match r {
            Ok(members) => json_string_object(text@) == Some(members.deep_view()),
            Err(_) => json_string_object(text@) is None,
        },
{
    let members = serde_json::from_str::<std::collections::BTreeMap<String, String>>(text);
    members.map(|m| m.into_iter().collect())
}

} // verus!
