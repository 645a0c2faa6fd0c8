//! The JSON encoder and the random source, as far as this crate uses them.

use vstd::prelude::*;
use crate::text::{option_text, views};

verus! {

/// The compact JSON text of an array of strings.
pub uninterp spec fn json_list_text(items: Seq<Seq<char>>) -> Seq<char>;

/// The compact JSON text of an object with a list of strings under
/// `list_key` and, where there is a `text`, that string under `text_key`.
pub uninterp spec fn json_object_text(
    list_key: Seq<char>,
    list: Seq<Seq<char>>,
    text_key: Seq<char>,
    text: Option<Seq<char>>,
) -> Seq<char>;

/// Calls `serde_json::to_string` on a vector of strings. Trusted: the
/// encoder succeeds, since it writes to a buffer in memory and strings have
/// no other way to fail, and its output is the JSON array of `items`, a
/// function of the strings alone.
#[verifier::external_body]
pub(crate) fn encode_list(items: &Vec<String>) -> (r: Option<String>)
    ensures
        r is Some,
        r matches Some(t) ==> t@ == json_list_text(views(items@)),
{
    serde_json::to_string(items).ok()
}

/// Puts `list` and `text` into a `serde_json::Map` under their keys and
/// formats it as a `serde_json::Value` through the value's `Display`.
/// Trusted: the output is the JSON text of that object, a function of keys
/// and contents alone. Writing it into a string does not fail.
#[verifier::external_body]
pub(crate) fn encode_object(
    list_key: &str,
    list: &Vec<String>,
    text_key: &str,
    text: &Option<String>,
) -> (r: String)
    ensures
        r@ == json_object_text(list_key@, views(list@), text_key@, option_text(*text)),
{
    let mut object = serde_json::Map::new();
    object.insert(list_key.to_string(), serde_json::Value::from(list.clone()));
    for t in text.iter() {
        object.insert(text_key.to_string(), serde_json::Value::from(t.as_str()));
    }
    serde_json::Value::Object(object).to_string()
}

/// Draws a `u128` from `rand::rng()`. Trusted, and nothing is claimed of the
/// number: callers hold for every value of it.
#[verifier::external_body]
pub(crate) fn draw_number() -> (r: u128)
{
    rand::Rng::random::<u128>(&mut rand::rng())
}

} // verus!
