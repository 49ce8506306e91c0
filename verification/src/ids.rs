//! Identifiers: UUIDs are carried as their 128-bit value and rendered or read
//! through the `uuid` crate.

use vstd::prelude::*;

use crate::digest::{random_bytes, random_source_message, random_source_refusal};
use crate::governance::Refusal;

verus! {

/// `16^e`.
pub open spec fn pow16(e: nat) -> nat
    decreases e,
{
    if e == 0 {
        1
    } else {
        16 * pow16((e - 1) as nat)
    }
}

/// Lowercase hexadecimal digit of a value below 16.
pub open spec fn hex_digit(n: nat) -> char {
    if n < 10 {
        (48 + n) as char
    } else {
        (87 + n) as char
    }
}

/// Whether a position of the hyphenated form holds a hyphen.
pub open spec fn is_hyphen_position(i: int) -> bool {
    i == 8 || i == 13 || i == 18 || i == 23
}

/// Index of the hexadecimal digit shown at position `i` of the hyphenated form,
/// counted from the most significant one.
pub open spec fn digit_index(i: int) -> int {
    if i < 8 {
        i
    } else if i < 13 {
        i - 1
    } else if i < 18 {
        i - 2
    } else if i < 23 {
        i - 3
    } else {
        i - 4
    }
}

/// The hyphenated lowercase form `xxxxxxxx-xxxx-xxxx-xxxx-xxxxxxxxxxxx` of a UUID.
pub open spec fn hyphenated(id: u128) -> Seq<char> {
    Seq::new(
        36,
        |i: int|
            if is_hyphen_position(i) {
                '-'
            } else {
                hex_digit((id as nat / pow16((31 - digit_index(i)) as nat)) % 16)
            },
    )
}

/// What `uuid::Uuid::parse_str` gives for a text: the UUID's value, or `None`
/// when the text is not one of the accepted forms.
pub uninterp spec fn uuid_parse_result(s: Seq<char>) -> Option<u128>;

/// What `uuid::Uuid::new_v5` gives under the URL namespace for a name.
pub uninterp spec fn uuid_v5_url_result(name: Seq<u8>) -> u128;

/// The text of a UUID (`uuid::Uuid` `Display`): the hyphenated lowercase form,
/// which `parse_str` reads back to the same value.
#[verifier::external_body]
pub(crate) fn uuid_text(id: u128) -> (r: String)
    ensures
        r@ == hyphenated(id),
        uuid_parse_result(r@) == Some(id),
{
    uuid::Uuid::from_u128(id).to_string()
}

/// Reads a UUID from text (`uuid::Uuid::parse_str`).
#[verifier::external_body]
pub(crate) fn parse_uuid(s: &str) -> (r: Option<u128>)
    ensures
        r == uuid_parse_result(s@),
{
    match uuid::Uuid::parse_str(s) {
        Ok(u) => Some(u.as_u128()),
        Err(_) => None,
    }
}

/// The big-endian value of bytes.
pub open spec fn be_value(bytes: Seq<u8>) -> nat
    decreases bytes.len(),
{
    if bytes.len() == 0 {
        0
    } else {
        (be_value(bytes.drop_last()) * 256 + bytes.last()) as nat
    }
}

/// The version 4 UUID made of 16 random bytes: byte 6 carries version 4 in
/// its high nibble and byte 8 the RFC 4122 variant in its two high bits.
pub open spec fn v4_of(bytes: Seq<u8>) -> u128 {
    be_value(bytes.update(6, ((bytes[6] & 0x0f) | 0x40) as u8).update(8, ((bytes[8] & 0x3f) | 0x80) as u8)) as u128
}

/// A version 4 UUID from 16 random bytes (`uuid::Builder::from_random_bytes`).
#[verifier::external_body]
fn uuid_from_random_bytes(bytes: &[u8]) -> (r: u128)
    requires
        bytes@.len() == 16,
    ensures
        r == v4_of(bytes@),
{
    let mut b = [0u8; 16];
    b.copy_from_slice(bytes);
    uuid::Builder::from_random_bytes(b).into_uuid().as_u128()
}

/// A fresh random UUID: a version 4 UUID of 16 bytes from the system's random
/// source; `Unavailable` when the source fails.
pub(crate) fn new_uuid() -> (r: Result<u128, Refusal>)
    ensures
        r matches Ok(u) ==> exists|b: Seq<u8>| b.len() == 16 && u == v4_of(b),
        r matches Err(e) ==> (e matches Refusal::Unavailable(m) && exists|t: Seq<char>| m@ == random_source_message(t)),
{
    match random_bytes(16) {
        Ok(b) => Ok(uuid_from_random_bytes(b.as_slice())),
        Err(e) => Err(random_source_refusal(e.as_str())),
    }
}

/// The name-based UUID of `name` in the URL namespace (`uuid::Uuid::new_v5`).
#[verifier::external_body]
pub(crate) fn uuid_v5_url(name: &[u8]) -> (r: u128)
    ensures
        r == uuid_v5_url_result(name@),
{
    uuid::Uuid::new_v5(&uuid::Uuid::NAMESPACE_URL, name).as_u128()
}

/// Each character of a hyphenated UUID is a hyphen or a lowercase hex digit.
pub proof fn lemma_hyphenated_chars(id: u128, i: int)
    requires
        0 <= i < 36,
    ensures
        hyphenated(id)[i] == '-' || ('0' <= hyphenated(id)[i] <= '9') || ('a'
            <= hyphenated(id)[i] <= 'f'),
        hyphenated(id)[i] != ':',
{
    if !is_hyphen_position(i) {
        let n = (id as nat / pow16((31 - digit_index(i)) as nat)) % 16;
        assert(n < 16);
    }
}

} // verus!
