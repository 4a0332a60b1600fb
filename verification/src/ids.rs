//! Identifiers: 128-bit UUIDs with their canonical text.

use vstd::prelude::*;

verus! {

/// The value that `uuid::Uuid::parse_str` reads out of `text`; `None` where
/// it rejects the text.
pub uninterp spec fn uuid_value(text: Seq<char>) -> Option<u128>;

/// The canonical text of a UUID: the string that `uuid::Uuid` displays for
/// `value`.
pub uninterp spec fn uuid_text(value: u128) -> String;

/// Parses a UUID with `uuid::Uuid::parse_str` and hands out its 128 bits
/// (`as_u128`). The outcome is named `uuid_value`.
#[verifier::external_body]
pub(crate) fn parse_uuid(text: &str) -> (r: Option<u128>)
    ensures
        r == uuid_value(text@),
{
    uuid::Uuid::parse_str(text).ok().map(|u| u.as_u128())
}

/// Formats the UUID made of `value` (`uuid::Uuid::from_u128`) as `Display`
/// does. The result is named `uuid_text`.
#[verifier::external_body]
pub(crate) fn format_uuid(value: u128) -> (r: String)
    ensures
        r == uuid_text(value),
{
    uuid::Uuid::from_u128(value).to_string()
}

/// Whether `value` carries the marks of a random UUID: version 4 in the
/// four bits that tell the version, and the two bits `10` that tell the
/// variant.
pub open spec fn is_version_4(value: u128) -> bool {
    value & 0x0000_0000_0000_f000_c000_0000_0000_0000 == 0x0000_0000_0000_4000_8000_0000_0000_0000
}

/// Draws a random version-4 UUID with `uuid::Uuid::new_v4`. The bits are
/// random but for the marks of version and variant, which `new_v4` sets on
/// every value it gives.
#[verifier::external_body]
pub(crate) fn random_uuid() -> (value: u128)
    ensures
        is_version_4(value),
{
    uuid::Uuid::new_v4().as_u128()
}

/// A UUID: its 128-bit value together with its canonical text.
#[derive(Debug, PartialEq, Eq)]
pub struct Uuid {
    value: u128,
    text: String,
}

impl Clone for Uuid {
    fn clone(&self) -> (r: Self)
        ensures
            r == *self,
    {
        Uuid { value: self.value, text: self.text.clone() }
    }
}

impl Uuid {
    /// The 128-bit value.
    pub closed spec fn value(&self) -> u128 {
        self.value
    }

    /// The canonical text, as held.
    pub closed spec fn text(&self) -> String {
        self.text
    }

    /// The UUID made of `value`, with its canonical text.
    pub closed spec fn canonical(value: u128) -> Uuid {
        Uuid { value, text: uuid_text(value) }
    }

    /// The UUID that `input` spells, if it spells one.
    pub open spec fn parsed(input: Seq<char>) -> Option<Uuid> {
        match uuid_value(input) {
            Some(value) => Some(Uuid::canonical(value)),
            None => None,
        }
    }

    /// The text held is the canonical text of the value.
    pub open spec fn wf(&self) -> bool {
        *self == Uuid::canonical(self.value())
    }

    /// The value and the text of a canonical UUID.
    pub proof fn lemma_canonical(value: u128)
        ensures
            Uuid::canonical(value).value() == value,
            Uuid::canonical(value).text() == uuid_text(value),
            Uuid::canonical(value).wf(),
    {
    }

    /// Reads a UUID from any of the textual forms the `uuid` crate accepts.
    pub fn parse_str(input: &str) -> (r: Option<Uuid>)
        ensures
            r == Uuid::parsed(input@),
    {
        match parse_uuid(input) {
            Some(value) => Some(Uuid { value, text: format_uuid(value) }),
            None => None,
        }
    }

    /// The UUID made of the 128 bits of `value`.
    pub fn from_u128(value: u128) -> (id: Uuid)
        ensures
            id == Uuid::canonical(value),
    {
        Uuid { value, text: format_uuid(value) }
    }

    /// A fresh random UUID: version 4, whatever its other bits.
    pub fn new_v4() -> (id: Uuid)
        ensures
            id.wf(),
            is_version_4(id.value()),
    {
        let value = random_uuid();
        Uuid { value, text: format_uuid(value) }
    }

    /// The 128 bits of this UUID.
    pub fn as_u128(&self) -> (v: u128)
        ensures
            v == self.value(),
    {
        self.value
    }

    /// The canonical text of this UUID.
    pub fn as_str(&self) -> (s: &str)
        ensures
            s@ == self.text()@,
    {
        self.text.as_str()
    }

    /// An owned copy of the canonical text.
    pub fn to_string(&self) -> (s: String)
        ensures
            s == self.text(),
    {
        self.text.clone()
    }

    /// Whether both stand for the same 128 bits.
    pub fn same(&self, other: &Uuid) -> (r: bool)
        ensures
            r == (self.value() == other.value()),
    {
        self.value == other.value
    }
}

} // verus!
