//! The JSON texts that carry the platform's whitelists.

use vstd::prelude::*;
use crate::model::strings_view;

verus! {

/// The outermost shape of a JSON text.
#[derive(Clone, Copy, Debug, PartialEq, Eq, Structural)]
pub enum JsonKind {
    Object,
    Array,
    Other,
}

/// The list of strings that `text` parses to with `serde_json`, or `None`
/// when it is not a JSON array of strings.
pub uninterp spec fn json_string_list(text: Seq<char>) -> Option<Seq<Seq<char>>>;

/// The shape of the JSON value that `text` parses to with `serde_json`, or
/// `None` when it is not JSON.
pub uninterp spec fn json_kind(text: Seq<char>) -> Option<JsonKind>;

/// The strings of the array under the key `key` of the JSON value that
/// `text` parses to with `serde_json`, or `None` when there is no such array
/// of strings.
pub uninterp spec fn json_field_strings(text: Seq<char>, key: Seq<char>) -> Option<Seq<Seq<char>>>;

/// The hexadecimal digits `serde_json` writes, in lower case.
pub open spec fn hex_digits() -> Seq<char> {
    seq!['0', '1', '2', '3', '4', '5', '6', '7', '8', '9', 'a', 'b', 'c', 'd', 'e', 'f']
}

/// How `serde_json` writes a character inside a string: a quote and a
/// backslash behind a backslash; backspace, tab, newline, form feed and
/// carriage return as `\b`, `\t`, `\n`, `\f`, `\r`; the other control
/// characters below U+0020 as `\u00` and two hexadecimal digits; any other
/// character as itself.
pub open spec fn json_char(c: char) -> Seq<char> {
    let u = c as u32;
    if c == '"' {
        seq!['\\', '"']
    } else if c == '\\' {
        seq!['\\', '\\']
    } else if u == 0x08 {
        seq!['\\', 'b']
    } else if u == 0x09 {
        seq!['\\', 't']
    } else if u == 0x0A {
        seq!['\\', 'n']
    } else if u == 0x0C {
        seq!['\\', 'f']
    } else if u == 0x0D {
        seq!['\\', 'r']
    } else if u < 0x20 {
        seq!['\\', 'u', '0', '0', hex_digits()[u as int / 16], hex_digits()[u as int % 16]]
    } else {
        seq![c]
    }
}

/// The JSON string `serde_json` writes for a text: its characters written
/// as above, between double quotes.
pub open spec fn json_string(s: Seq<char>) -> Seq<char> {
    seq!['"'] + s.map_values(|c: char| json_char(c)).flatten() + seq!['"']
}

/// Texts one after the other with a comma between each two.
pub open spec fn comma_joined(items: Seq<Seq<char>>) -> Seq<char>
    decreases items.len(),
{
    if items.len() == 0 {
        Seq::empty()
    } else if items.len() == 1 {
        items[0]
    } else {
        comma_joined(items.drop_last()) + seq![','] + items.last()
    }
}

/// The JSON text that `serde_json` writes for a list of strings: the JSON
/// strings, separated by commas, between square brackets, with no space.
pub open spec fn json_of_strings(list: Seq<Seq<char>>) -> Seq<char> {
    seq!['['] + comma_joined(list.map_values(|s: Seq<char>| json_string(s))) + seq![']']
}

/// The view of an optional list of strings.
pub open spec fn opt_strings_view(o: Option<Vec<String>>) -> Option<Seq<Seq<char>>> {
    match o {
        Some(v) => Some(strings_view(v@)),
        None => None,
    }
}

/// `serde_json::from_str::<Vec<String>>`, with the error dropped.
/// Claimed: the result is the value named by `json_string_list`.
#[verifier::external_body]
fn parse_string_list(text: &str) -> (r: Option<Vec<String>>)
    ensures
        opt_strings_view(r) == json_string_list(text@),
{
    serde_json::from_str::<Vec<String>>(text).ok()
}

/// `serde_json::from_str::<serde_json::Value>`, reduced to the variant of
/// the value. Claimed: the result is the value named by `json_kind`.
#[verifier::external_body]
fn parse_json_kind(text: &str) -> (r: Option<JsonKind>)
    ensures
        r == json_kind(text@),
{
    match serde_json::from_str::<serde_json::Value>(text) {
        Ok(serde_json::Value::Object(_)) => Some(JsonKind::Object),
        Ok(serde_json::Value::Array(_)) => Some(JsonKind::Array),
        Ok(_) => Some(JsonKind::Other),
        Err(_) => None,
    }
}

/// `serde_json::from_str::<serde_json::Value>` followed by `get(key)`,
/// `as_array` and `serde_json::from_value::<Vec<String>>`, the way to read
/// an array of strings under a key. Claimed: the result is the value named
/// by `json_field_strings`, a function of the text and the key alone.
#[verifier::external_body]
fn parse_field_strings(text: &str, key: &str) -> (r: Option<Vec<String>>)
    ensures
        opt_strings_view(r) == json_field_strings(text@, key@),
{
    let value = serde_json::from_str::<serde_json::Value>(text).ok()?;
    let array = value.get(key).and_then(|v| v.as_array())?;
    serde_json::from_value::<Vec<String>>(array.clone().into()).ok()
}

/// `serde_json::to_string` on a list of strings, which cannot fail for it.
/// Claimed: the result is the compact JSON array `json_of_strings` states,
/// as serde_json's writer and its escape table produce it; it reads back as
/// an array, and `serde_json` reads the same list of strings back from it.
#[verifier::external_body]
fn encode_string_list(list: &Vec<String>) -> (r: String)
    ensures
        r@ == json_of_strings(strings_view(list@)),
        json_kind(r@) == Some(JsonKind::Array),
        json_string_list(r@) == Some(strings_view(list@)),
{
    serde_json::to_string(list).unwrap_or_default()
}

/// The key under which a courier whitelist object lists the active couriers.
pub open spec fn active_key() -> Seq<char> {
    seq!['a', 'c', 't', 'i', 'v', 'e']
}

/// The whitelist that a courier whitelist configuration carries, as the
/// admin app reads it: the `active` list of an object, or a plain array;
/// any other JSON value carries none.
pub open spec fn courier_whitelist_of(text: Seq<char>) -> Option<Seq<Seq<char>>> {
    match json_kind(text) {
        Some(JsonKind::Object) => json_field_strings(text, active_key()),
        Some(JsonKind::Array) => json_string_list(text),
        Some(JsonKind::Other) => None,
        None => json_string_list(text),
    }
}

/// Reads the whitelist out of the content of a courier whitelist
/// configuration note.
pub fn decode_courier_whitelist(content: &str) -> (r: Option<Vec<String>>)
    ensures
        opt_strings_view(r) == courier_whitelist_of(content@),
{
    match parse_json_kind(content) {
        Some(JsonKind::Object) => {
            let key = "active";
            proof {
                reveal_strlit("active");
                assert(key@ == active_key());
            }
            parse_field_strings(content, key)
        },
        Some(JsonKind::Array) => parse_string_list(content),
        Some(JsonKind::Other) => None,
        None => parse_string_list(content),
    }
}

/// Reads the whitelist out of the content of a commerce whitelist
/// configuration note.
pub fn decode_commerce_whitelist(content: &str) -> (r: Option<Vec<String>>)
    ensures
        opt_strings_view(r) == json_string_list(content@),
{
    parse_string_list(content)
}

/// The content of an admin request that publishes a whitelist; both
/// whitelist readers read the same list back from it.
pub fn encode_whitelist(list: &Vec<String>) -> (r: String)
    ensures
        r@ == json_of_strings(strings_view(list@)),
        json_string_list(r@) == Some(strings_view(list@)),
        courier_whitelist_of(r@) == Some(strings_view(list@)),
{
    encode_string_list(list)
}

} // verus!
