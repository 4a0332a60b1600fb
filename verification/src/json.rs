//! JSON at the edge of the hub: reading the members of an object out of a
//! frame, and writing compact JSON text for what the hub sends.
//!
//! Parsing and the escaping of string literals are serde_json's; integers
//! and the framing of objects and arrays around already rendered values are
//! written here.

use vstd::prelude::*;
use crate::text::str_eq;

verus! {

/// What one member of a parsed JSON object holds, one level deep. Strings,
/// booleans and the integers from 0 to 2^64 - 1 are held by value; every
/// other number, and every array and object, by its compact JSON text.
#[derive(Debug, Clone, PartialEq, Eq)]
pub enum Field {
    Null,
    Bool(bool),
    /// A number written as an integer from 0 to 2^64 - 1.
    Unsigned(u64),
    /// Any other number: negative, fractional or out of range.
    Number(String),
    Text(String),
    Array(String),
    Object(String),
}

/// The members of the JSON object that `text` spells, in key order, each
/// value one level deep; `None` where `text` is no JSON document or the
/// document is no object.
pub uninterp spec fn json_members(text: Seq<char>) -> Option<Seq<(String, Field)>>;

/// The JSON string literal for `s`, quotes and escapes included.
pub uninterp spec fn quoted(s: Seq<char>) -> Seq<char>;

/// The decimal digit for `d`.
pub open spec fn digit(d: nat) -> char {
    if d == 0 {
        '0'
    } else if d == 1 {
        '1'
    } else if d == 2 {
        '2'
    } else if d == 3 {
        '3'
    } else if d == 4 {
        '4'
    } else if d == 5 {
        '5'
    } else if d == 6 {
        '6'
    } else if d == 7 {
        '7'
    } else if d == 8 {
        '8'
    } else {
        '9'
    }
}

/// The decimal digits of `n`, without leading zeros.
pub open spec fn digits(n: nat) -> Seq<char>
    decreases n,
{
    if n < 10 {
        seq![digit(n)]
    } else {
        digits(n / 10).push(digit(n % 10))
    }
}

/// The JSON number literal for the integer `n`: its decimal digits, after a
/// minus sign where it is negative.
pub open spec fn integer_text(n: int) -> Seq<char> {
    if n < 0 {
        seq!['-'] + digits((-n) as nat)
    } else {
        digits(n as nat)
    }
}

/// Parses `text` with `serde_json::from_str` and hands out the members of
/// the object it spells, each value converted one level deep; what is held
/// as text is rendered by the value's own `Display`, which is compact JSON.
/// The outcome depends on `text` alone and is named `json_members`.
#[verifier::external_body]
pub(crate) fn parse_object(text: &str) -> (r: Option<Vec<(String, Field)>>)
    ensures
        r matches Some(v) ==> json_members(text@) == Some(v@),
        r is None ==> json_members(text@) is None,
{
    let root = serde_json::from_str::<serde_json::Value>(text).ok()?;
    Some(root.as_object()?.iter().map(|(k, v)| (k.clone(), match v {
        serde_json::Value::Null => Field::Null,
        serde_json::Value::Bool(b) => Field::Bool(*b),
        serde_json::Value::Number(n) => n.as_u64().map_or(Field::Number(n.to_string()), Field::Unsigned),
        serde_json::Value::String(s) => Field::Text(s.clone()),
        serde_json::Value::Array(_) => Field::Array(v.to_string()),
        serde_json::Value::Object(_) => Field::Object(v.to_string()),
    })).collect())
}

/// Renders `s` as a JSON string literal with `serde_json::to_string`, which
/// cannot fail on a string. The result is named `quoted`.
#[verifier::external_body]
pub(crate) fn json_quote(s: &str) -> (r: String)
    ensures
        r@ == quoted(s@),
{
    serde_json::to_string(s).unwrap_or_default()
}

/// The text of one decimal digit.
fn digit_text(d: u128) -> (r: &'static str)
    requires
        d < 10,
    ensures
        r@ == seq![digit(d as nat)],
{
    proof {
        reveal_strlit("0");
        reveal_strlit("1");
        reveal_strlit("2");
        reveal_strlit("3");
        reveal_strlit("4");
        reveal_strlit("5");
        reveal_strlit("6");
        reveal_strlit("7");
        reveal_strlit("8");
        reveal_strlit("9");
    }
    let r = if d == 0 {
        "0"
    } else if d == 1 {
        "1"
    } else if d == 2 {
        "2"
    } else if d == 3 {
        "3"
    } else if d == 4 {
        "4"
    } else if d == 5 {
        "5"
    } else if d == 6 {
        "6"
    } else if d == 7 {
        "7"
    } else if d == 8 {
        "8"
    } else {
        "9"
    };
    assert(r@ =~= seq![digit(d as nat)]);
    r
}

/// Writes the decimal digits of `n`.
fn write_digits(n: u128) -> (r: String)
    ensures
        r@ == digits(n as nat),
    decreases n,
{
    if n < 10 {
        String::from_str(digit_text(n))
    } else {
        let mut out = write_digits(n / 10);
        out.append(digit_text(n % 10));
        assert(out@ =~= digits((n / 10) as nat).push(digit((n % 10) as nat)));
        out
    }
}

/// Renders `n` as a JSON number.
pub fn json_integer(n: i128) -> (r: String)
    ensures
        r@ == integer_text(n as int),
{
    if n >= 0 {
        write_digits(n as u128)
    } else {
        let magnitude: u128 = (-(n + 1)) as u128 + 1;
        let mut out = String::from_str("-");
        out.append(write_digits(magnitude).as_str());
        proof {
            reveal_strlit("-");
            assert("-"@ =~= seq!['-']);
        }
        out
    }
}

/// The value of the first member named `key`, if there is one.
pub open spec fn field_of(members: Seq<(String, Field)>, key: Seq<char>) -> Option<Field>
    decreases members.len(),
{
    if members.len() == 0 {
        None
    } else if members[0].0@ == key {
        Some(members[0].1)
    } else {
        field_of(members.skip(1), key)
    }
}

/// The string held by the member `key`; `None` where it is missing or holds
/// anything but a string.
pub open spec fn text_of(members: Seq<(String, Field)>, key: Seq<char>) -> Option<String> {
    match field_of(members, key) {
        Some(Field::Text(s)) => Some(s),
        _ => None,
    }
}

/// The boolean held by the member `key`.
pub open spec fn bool_of(members: Seq<(String, Field)>, key: Seq<char>) -> Option<bool> {
    match field_of(members, key) {
        Some(Field::Bool(b)) => Some(b),
        _ => None,
    }
}

/// The members of the object held by the member `key`; `None` where it is
/// missing or holds anything but an object.
pub open spec fn members_of(members: Seq<(String, Field)>, key: Seq<char>) -> Option<
    Seq<(String, Field)>,
> {
    match field_of(members, key) {
        Some(Field::Object(raw)) => json_members(raw@),
        _ => None,
    }
}

/// The compact JSON text of what a member holds.
pub open spec fn field_wire(field: Field) -> Seq<char> {
    match field {
        Field::Null => "null"@,
        Field::Bool(b) => bool_text(b),
        Field::Unsigned(n) => integer_text(n as int),
        Field::Number(raw) => raw@,
        Field::Text(s) => quoted(s@),
        Field::Array(raw) => raw@,
        Field::Object(raw) => raw@,
    }
}

/// The string held by an optional member `key`: `Some(None)` where it is
/// missing or null, `None` where it holds anything but a string.
pub open spec fn optional_text_of(members: Seq<(String, Field)>, key: Seq<char>) -> Option<
    Option<String>,
> {
    match field_of(members, key) {
        None => Some(None),
        Some(Field::Null) => Some(None),
        Some(Field::Text(s)) => Some(Some(s)),
        _ => None,
    }
}

/// The non-negative integer held by the member `key`.
pub open spec fn unsigned_of(members: Seq<(String, Field)>, key: Seq<char>) -> Option<u64> {
    match field_of(members, key) {
        Some(Field::Unsigned(n)) => Some(n),
        _ => None,
    }
}

/// The 16-bit number held by an optional member `key`: `Some(None)` where it
/// is missing or null, `None` where it holds anything but an integer from 0
/// to 65535.
pub open spec fn optional_u16_of(members: Seq<(String, Field)>, key: Seq<char>) -> Option<
    Option<u16>,
> {
    match field_of(members, key) {
        None => Some(None),
        Some(Field::Null) => Some(None),
        Some(Field::Unsigned(n)) => if n <= 0xffff {
            Some(Some(n as u16))
        } else {
            None
        },
        _ => None,
    }
}

/// Looks up the first member named `key`.
pub fn find_field<'a>(members: &'a Vec<(String, Field)>, key: &str) -> (r: Option<&'a Field>)
    ensures
        match r {
            Some(f) => field_of(members@, key@) == Some(*f),
            None => field_of(members@, key@) is None,
        },
{
    let mut i: usize = 0;
    assert(members@.skip(0) =~= members@);
    while i < members.len()
        invariant
            i <= members.len(),
            field_of(members@, key@) == field_of(members@.skip(i as int), key@),
        decreases members.len() - i,
    {
        if str_eq(members[i].0.as_str(), key) {
            return Some(&members[i].1);
        }
        assert(members@.skip(i as int).skip(1) =~= members@.skip(i as int + 1));
        i += 1;
    }
    None
}

/// Reads the member `key` as a string.
pub fn find_text(members: &Vec<(String, Field)>, key: &str) -> (r: Option<String>)
    ensures
        r == text_of(members@, key@),
{
    match find_field(members, key) {
        Some(Field::Text(s)) => Some(s.clone()),
        _ => None,
    }
}

/// Reads the member `key` as a boolean.
pub fn find_bool(members: &Vec<(String, Field)>, key: &str) -> (r: Option<bool>)
    ensures
        r == bool_of(members@, key@),
{
    match find_field(members, key) {
        Some(Field::Bool(b)) => Some(*b),
        _ => None,
    }
}

/// Reads the member `key` as an object and hands out its members.
pub fn find_members(members: &Vec<(String, Field)>, key: &str) -> (r: Option<Vec<(String, Field)>>)
    ensures
        match r {
            Some(inner) => members_of(members@, key@) == Some(inner@),
            None => members_of(members@, key@) is None,
        },
{
    match find_field(members, key) {
        Some(Field::Object(raw)) => parse_object(raw.as_str()),
        _ => None,
    }
}

/// Renders what a member holds as compact JSON.
pub fn write_field(field: &Field) -> (r: String)
    ensures
        r@ == field_wire(*field),
{
    match field {
        Field::Null => String::from_str("null"),
        Field::Bool(b) => write_bool(*b),
        Field::Unsigned(n) => json_integer(*n as i128),
        Field::Number(raw) => raw.clone(),
        Field::Text(s) => json_quote(s.as_str()),
        Field::Array(raw) => raw.clone(),
        Field::Object(raw) => raw.clone(),
    }
}

/// Reads an optional member `key` as a string.
pub fn find_optional_text(members: &Vec<(String, Field)>, key: &str) -> (r: Option<Option<String>>)
    ensures
        r == optional_text_of(members@, key@),
{
    match find_field(members, key) {
        None => Some(None),
        Some(Field::Null) => Some(None),
        Some(Field::Text(s)) => Some(Some(s.clone())),
        _ => None,
    }
}

/// Reads the member `key` as a non-negative integer.
pub fn find_unsigned(members: &Vec<(String, Field)>, key: &str) -> (r: Option<u64>)
    ensures
        r == unsigned_of(members@, key@),
{
    match find_field(members, key) {
        Some(Field::Unsigned(n)) => Some(*n),
        _ => None,
    }
}

/// Reads an optional member `key` as a 16-bit number.
pub fn find_optional_u16(members: &Vec<(String, Field)>, key: &str) -> (r: Option<Option<u16>>)
    ensures
        r == optional_u16_of(members@, key@),
{
    match find_field(members, key) {
        None => Some(None),
        Some(Field::Null) => Some(None),
        Some(Field::Unsigned(n)) => {
            if *n <= 0xffff {
                Some(Some(*n as u16))
            } else {
                None
            }
        },
        _ => None,
    }
}

/// One member of an object: the key in quotes, a colon, the rendered value.
pub open spec fn member(key: Seq<char>, value: Seq<char>) -> Seq<char> {
    "\""@ + key + "\":"@ + value
}

/// The parts in order, with a comma between neighbours.
pub open spec fn joined(parts: Seq<Seq<char>>) -> Seq<char>
    decreases parts.len(),
{
    if parts.len() == 0 {
        Seq::empty()
    } else if parts.len() == 1 {
        parts[0]
    } else {
        joined(parts.drop_last()) + ","@ + parts.last()
    }
}

/// A JSON object made of rendered members.
pub open spec fn object(members: Seq<Seq<char>>) -> Seq<char> {
    "{"@ + joined(members) + "}"@
}

/// A JSON array made of rendered items.
pub open spec fn array(items: Seq<Seq<char>>) -> Seq<char> {
    "["@ + joined(items) + "]"@
}

/// The literal for a boolean.
pub open spec fn bool_text(b: bool) -> Seq<char> {
    if b { "true"@ } else { "false"@ }
}

/// A string literal, or `null` where there is no string.
pub open spec fn optional_quoted(s: Option<String>) -> Seq<char> {
    match s {
        Some(s) => quoted(s@),
        None => "null"@,
    }
}

/// An integer literal, or `null` where there is no integer.
pub open spec fn optional_integer(n: Option<int>) -> Seq<char> {
    match n {
        Some(n) => integer_text(n),
        None => "null"@,
    }
}

/// A boolean literal, or `null` where there is no boolean.
pub open spec fn optional_bool(b: Option<bool>) -> Seq<char> {
    match b {
        Some(b) => bool_text(b),
        None => "null"@,
    }
}

/// Renders one member of an object.
pub fn write_member(key: &str, value: &str) -> (r: String)
    ensures
        r@ == member(key@, value@),
{
    let mut out = String::from_str("\"");
    out.append(key);
    out.append("\":");
    out.append(value);
    out
}

/// Joins rendered parts with commas.
pub fn write_joined(parts: &Vec<String>) -> (r: String)
    ensures
        r@ == joined(crate::text::views(parts@)),
{
    let ghost all = crate::text::views(parts@);
    let mut out = String::new();
    let mut i: usize = 0;
    while i < parts.len()
        invariant
            i <= parts.len(),
            all == crate::text::views(parts@),
            out@ == joined(all.take(i as int)),
        decreases parts.len() - i,
    {
        proof {
            assert(all.take(i as int + 1).drop_last() =~= all.take(i as int));
            assert(all.take(i as int + 1).last() == parts@[i as int]@);
        }
        if i > 0 {
            out.append(",");
        }
        out.append(parts[i].as_str());
        i += 1;
    }
    proof {
        assert(all.take(parts.len() as int) =~= all);
    }
    out
}

/// Renders an object from its rendered members.
pub fn write_object(members: &Vec<String>) -> (r: String)
    ensures
        r@ == object(crate::text::views(members@)),
{
    let mut out = String::from_str("{");
    let inner = write_joined(members);
    out.append(inner.as_str());
    out.append("}");
    out
}

/// Renders an array from its rendered items.
pub fn write_array(items: &Vec<String>) -> (r: String)
    ensures
        r@ == array(crate::text::views(items@)),
{
    let mut out = String::from_str("[");
    let inner = write_joined(items);
    out.append(inner.as_str());
    out.append("]");
    out
}

/// Renders a boolean.
pub fn write_bool(b: bool) -> (r: String)
    ensures
        r@ == bool_text(b),
{
    if b {
        String::from_str("true")
    } else {
        String::from_str("false")
    }
}

/// Renders a string, or `null` where there is none.
pub fn write_optional(s: &Option<String>) -> (r: String)
    ensures
        r@ == optional_quoted(*s),
{
    match s {
        Some(s) => json_quote(s.as_str()),
        None => String::from_str("null"),
    }
}

/// Renders an integer, or `null` where there is none.
pub fn write_optional_integer(n: Option<i128>) -> (r: String)
    ensures
        r@ == optional_integer(
            match n {
                Some(n) => Some(n as int),
                None => None,
            },
        ),
{
    match n {
        Some(n) => json_integer(n),
        None => String::from_str("null"),
    }
}

/// Renders a boolean, or `null` where there is none.
pub fn write_optional_bool(b: Option<bool>) -> (r: String)
    ensures
        r@ == optional_bool(b),
{
    match b {
        Some(b) => write_bool(b),
        None => String::from_str("null"),
    }
}

} // verus!
