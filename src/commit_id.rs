//! Commit identifiers written as hexadecimal text.

use vstd::prelude::*;
use subtle_encoding::hex;

verus! {

#[verifier::external_type_specification]
#[verifier::external_body]
pub struct ExOid(git2::Oid);

/// A hexadecimal digit in lower case.
pub open spec fn is_lower_hex_digit(c: char) -> bool {
    ('0' as u32 <= c as u32 && c as u32 <= '9' as u32) || ('a' as u32 <= c as u32 && c as u32
        <= 'f' as u32)
}

/// A hexadecimal digit in upper case.
pub open spec fn is_upper_hex_digit(c: char) -> bool {
    ('0' as u32 <= c as u32 && c as u32 <= '9' as u32) || ('A' as u32 <= c as u32 && c as u32
        <= 'F' as u32)
}

/// The value of a hexadecimal digit of either case.
pub open spec fn hex_value(c: char) -> int {
    if '0' as u32 <= c as u32 && c as u32 <= '9' as u32 {
        c as u32 - '0' as u32
    } else if 'a' as u32 <= c as u32 && c as u32 <= 'f' as u32 {
        c as u32 - 'a' as u32 + 10
    } else {
        c as u32 - 'A' as u32 + 10
    }
}

/// Text that decodes as lower-case hexadecimal: whole bytes, lower-case digits.
pub open spec fn is_lower_hex(s: Seq<char>) -> bool {
    s.len() % 2 == 0 && forall|i: int| 0 <= i < s.len() ==> is_lower_hex_digit(#[trigger] s[i])
}

/// Text that decodes as upper-case hexadecimal: whole bytes, upper-case digits.
pub open spec fn is_upper_hex(s: Seq<char>) -> bool {
    s.len() % 2 == 0 && forall|i: int| 0 <= i < s.len() ==> is_upper_hex_digit(#[trigger] s[i])
}

/// The bytes that hexadecimal text stands for, two digits per byte, high digit first.
pub open spec fn hex_bytes(s: Seq<char>) -> Seq<u8> {
    Seq::new(
        (s.len() / 2) as nat,
        |i: int| (16 * hex_value(s[2 * i]) + hex_value(s[2 * i + 1])) as u8,
    )
}

/// The object id that git2 builds from twenty raw bytes.
pub uninterp spec fn oid_of(b: Seq<u8>) -> git2::Oid;

/// Relies on subtle_encoding::hex::decode: it accepts exactly an even number of
/// lower-case digits and yields one byte per pair.
#[verifier::external_body]
fn decode_lower(s: &str) -> (r: Option<Vec<u8>>)
    ensures
        r.is_some() <==> is_lower_hex(s@),
        r matches Some(v) ==> v@ == hex_bytes(s@),
{
    hex::decode(s).ok()
}

/// Relies on subtle_encoding::hex::decode_upper: it accepts exactly an even number
/// of upper-case digits and yields one byte per pair.
#[verifier::external_body]
fn decode_upper(s: &str) -> (r: Option<Vec<u8>>)
    ensures
        r.is_some() <==> is_upper_hex(s@),
        r matches Some(v) ==> v@ == hex_bytes(s@),
{
    hex::decode_upper(s).ok()
}

/// Relies on git2::Oid::from_bytes: it accepts exactly twenty bytes.
#[verifier::external_body]
fn oid_from_bytes(b: &[u8]) -> (r: Option<git2::Oid>)
    ensures
        r.is_some() <==> b@.len() == 20,
        r matches Some(o) ==> o == oid_of(b@),
{
    git2::Oid::from_bytes(b).ok()
}

/// Reads a commitish as a full commit id: forty hexadecimal digits, all lower case
/// or all upper case.
pub fn decode_commit_id(commitish: &str) -> (r: Option<git2::Oid>)
    ensures
        r.is_some() <==> (is_lower_hex(commitish@) || is_upper_hex(commitish@))
            && commitish@.len() == 40,
        r matches Some(o) ==> o == oid_of(hex_bytes(commitish@)),
{
    let bytes = match decode_lower(commitish) {
        Some(b) => Some(b),
        None => decode_upper(commitish),
    };
    match bytes {
        Some(b) => oid_from_bytes(b.as_slice()),
        None => None,
    }
}

} // verus!
