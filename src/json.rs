//! The pieces of JSON reading and writing that the wire codec takes from
//! serde_json and uuid. Each result depends on its argument alone and is
//! given a name here; the codec states its own contracts over these names.

use vstd::prelude::*;
use crate::user::Rgb;
use serde_json::value::RawValue;
use std::collections::BTreeMap;

verus! {

/// The members of a JSON object, each value kept as its JSON text, as
/// serde_json reads them (`None` when the text is not one JSON object).
pub uninterp spec fn object_members(text: Seq<char>) -> Option<Seq<(Seq<char>, Seq<char>)>>;

/// The string that a JSON text denotes, as serde_json reads it.
pub uninterp spec fn string_value(text: Seq<char>) -> Option<Seq<char>>;

/// The UUID that a JSON text denotes, as uuid's serde support reads it.
pub uninterp spec fn uuid_value(text: Seq<char>) -> Option<u128>;

/// The three-element array of bytes that a JSON text denotes.
pub uninterp spec fn rgb_value(text: Seq<char>) -> Option<Rgb>;

/// The JSON text that serde_json writes for a string.
pub uninterp spec fn string_json(s: Seq<char>) -> Option<Seq<char>>;

/// The decimal digits of `n`, without leading zeros.
pub open spec fn decimal(n: nat) -> Seq<char>
    decreases n,
{
    let digit = seq!['0', '1', '2', '3', '4', '5', '6', '7', '8', '9'][(n % 10) as int];
    if n < 10 {
        seq![digit]
    } else {
        decimal(n / 10).push(digit)
    }
}

/// A JSON array of three bytes, in decimal, without spaces.
pub open spec fn rgb_text(c: Rgb) -> Seq<char> {
    "["@ + decimal(c.0 as nat) + ","@ + decimal(c.1 as nat) + ","@ + decimal(c.2 as nat) + "]"@
}

/// The 32 lower-case hexadecimal digits of `id`, most significant first.
pub open spec fn hex_digits(id: u128) -> Seq<char> {
    Seq::new(
        32,
        |i: int|
            seq!['0', '1', '2', '3', '4', '5', '6', '7', '8', '9', 'a', 'b', 'c', 'd', 'e', 'f'][((id
                >> ((124 - 4 * i) as u128)) & 0xfu128) as int],
    )
}

/// A UUID as a JSON string: its digits in groups of 8, 4, 4, 4 and 12,
/// joined by hyphens, in quotes.
pub open spec fn uuid_text(id: u128) -> Seq<char> {
    let h = hex_digits(id);
    "\""@ + h.subrange(0, 8) + "-"@ + h.subrange(8, 12) + "-"@ + h.subrange(12, 16) + "-"@
        + h.subrange(16, 20) + "-"@ + h.subrange(20, 32) + "\""@
}

/// The text that UTF-8 bytes encode.
pub uninterp spec fn utf8_text(b: Seq<u8>) -> Option<Seq<char>>;

pub open spec fn opt_str(o: Option<String>) -> Option<Seq<char>> {
    match o {
        Some(s) => Some(s@),
        None => None,
    }
}

pub open spec fn member_pairs(v: Seq<(String, String)>) -> Seq<(Seq<char>, Seq<char>)> {
    v.map_values(|p: (String, String)| (p.0@, p.1@))
}

pub open spec fn opt_members(o: Option<Vec<(String, String)>>) -> Option<Seq<(Seq<char>, Seq<char>)>> {
    match o {
        Some(v) => Some(member_pairs(v@)),
        None => None,
    }
}

/// Relies on serde_json::from_str into a BTreeMap of String to Box<RawValue>:
/// reads one JSON object and keeps each member's value as its JSON text.
#[verifier::external_body]
pub(crate) fn parse_object(text: &str) -> (r: Option<Vec<(String, String)>>)
    ensures
        opt_members(r) == object_members(text@),
{
    serde_json::from_str::<BTreeMap<String, Box<RawValue>>>(text).ok().map(
        |m| m.into_iter().map(|(k, v)| (k, v.get().to_string())).collect(),
    )
}

/// Relies on serde_json::from_str::<String>: reads a JSON string.
#[verifier::external_body]
pub(crate) fn parse_string(text: &str) -> (r: Option<String>)
    ensures
        opt_str(r) == string_value(text@),
{
    serde_json::from_str::<String>(text).ok()
}

/// Relies on serde_json::from_str::<uuid::Uuid>, read back as its big-endian
/// u128: reads a UUID written as a JSON string.
#[verifier::external_body]
pub(crate) fn parse_uuid(text: &str) -> (r: Option<u128>)
    ensures
        r == uuid_value(text@),
{
    serde_json::from_str::<uuid::Uuid>(text).ok().map(|u| u.as_u128())
}

/// Relies on serde_json::from_str::<(u8, u8, u8)>: reads a JSON array of three
/// bytes.
#[verifier::external_body]
pub(crate) fn parse_rgb(text: &str) -> (r: Option<Rgb>)
    ensures
        r == rgb_value(text@),
{
    serde_json::from_str::<(u8, u8, u8)>(text).ok()
}

/// Relies on serde_json::to_string on a str: writes a JSON string, which
/// cannot fail (it writes to memory, and a str always serialises).
#[verifier::external_body]
pub(crate) fn write_string(s: &str) -> (r: Option<String>)
    ensures
        r is Some,
        opt_str(r) == string_json(s@),
{
    serde_json::to_string(s).ok()
}

/// Relies on serde_json::to_string on uuid::Uuid::from_u128(id): uuid writes
/// its lower-case hyphenated form as a string, which needs no escaping, and
/// the writing cannot fail.
#[verifier::external_body]
pub(crate) fn write_uuid(id: u128) -> (r: Option<String>)
    ensures
        opt_str(r) == Some(uuid_text(id)),
{
    serde_json::to_string(&uuid::Uuid::from_u128(id)).ok()
}

/// Relies on serde_json::to_string on a tuple of three u8: writes a compact
/// JSON array of the three numbers in decimal, which cannot fail.
#[verifier::external_body]
pub(crate) fn write_rgb(c: Rgb) -> (r: Option<String>)
    ensures
        opt_str(r) == Some(rgb_text(c)),
{
    serde_json::to_string(&c).ok()
}

/// Relies on String::from_utf8: the text of the bytes when they are UTF-8.
#[verifier::external_body]
pub(crate) fn utf8_string(b: &Vec<u8>) -> (r: Option<String>)
    ensures
        opt_str(r) == utf8_text(b@),
{
    String::from_utf8(b.clone()).ok()
}

} // verus!
