//! Identifiers: fresh random UUIDs, their text form, and parsing text back.

use vstd::prelude::*;
use vstd::arithmetic::power::pow;

verus! {

/// The lower-case hexadecimal digit of a value below sixteen.
pub open spec fn hex_char(d: int) -> char {
    if d < 10 {
        (d + 48) as char
    } else {
        (d + 87) as char
    }
}

/// The 32 hexadecimal digits of a UUID, most significant first.
pub open spec fn uuid_hex(id: u128) -> Seq<char> {
    Seq::new(32, |i: int| hex_char((id as int / pow(16, (31 - i) as nat)) % 16))
}

/// The hyphenated lower-case text of a UUID: its digits in groups of 8, 4,
/// 4, 4 and 12, separated by '-'.
pub open spec fn uuid_text(id: u128) -> Seq<char> {
    let h = uuid_hex(id);
    h.subrange(0, 8) + seq!['-'] + h.subrange(8, 12) + seq!['-'] + h.subrange(12, 16) + seq!['-']
        + h.subrange(16, 20) + seq!['-'] + h.subrange(20, 32)
}

/// The UUID a text denotes, if it is one (named result of parsing).
pub uninterp spec fn uuid_parse(s: Seq<char>) -> Option<u128>;

/// The version field of a UUID: bits 76 to 79 of its 128-bit value.
pub open spec fn uuid_version(id: u128) -> int {
    (id as int / 0x1000_0000_0000_0000_0000) % 16
}

/// The variant field of a UUID: bits 62 and 63 of its 128-bit value.
pub open spec fn uuid_variant(id: u128) -> int {
    (id as int / 0x4000_0000_0000_0000) % 4
}

/// A random UUID as RFC 4122 lays it out: version 4 and variant `10`.
pub open spec fn is_random_uuid(id: u128) -> bool {
    uuid_version(id) == 4 && uuid_variant(id) == 2
}

/// A fresh random (version 4) UUID.
///
/// Calls `uuid::Uuid::new_v4`. Its source draws 128 random bits, clears the
/// version and variant fields, and sets the version to 4 and the variant to
/// `10`; which other bits come back is random and not stated.
#[verifier::external_body]
pub(crate) fn new_uuid() -> (id: u128)
    ensures
        is_random_uuid(id),
{
    uuid::Uuid::new_v4().as_u128()
}

/// The text form of a UUID.
///
/// Calls `Display::to_string` on `uuid::Uuid::from_u128(id)`, which the
/// crate's source writes as the 16 bytes of `id`, most significant first,
/// in lower-case hexadecimal with hyphens after the 8th, 12th, 16th and
/// 20th digits. The crate documents that `Uuid::parse_str` accepts
/// every format it generates, the hyphenated one included, so parsing this
/// text gives back `id`.
#[verifier::external_body]
pub(crate) fn uuid_to_string(id: u128) -> (s: String)
    ensures
        s@ == uuid_text(id),
        uuid_parse(s@) == Some(id),
{
    uuid::Uuid::from_u128(id).to_string()
}

/// Parses the text of a UUID.
///
/// Calls `uuid::Uuid::parse_str`; its result, with the error dropped, is
/// named `uuid_parse`.
#[verifier::external_body]
pub(crate) fn parse_uuid(s: &String) -> (r: Option<u128>)
    ensures
        r == uuid_parse(s@),
{
    match uuid::Uuid::parse_str(s.as_str()) {
        Ok(u) => Some(u.as_u128()),
        Err(_) => None,
    }
}

/// A random UUID is never the nil UUID: its version field is 4, not 0.
pub proof fn lemma_random_uuid_not_nil(id: u128)
    requires
        is_random_uuid(id),
    ensures
        id != 0,
{
}

} // verus!
