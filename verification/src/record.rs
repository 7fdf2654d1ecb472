//! Records and their generator.
//!
//! A record pairs an opaque, caller-generated identifier with a short
//! payload. The demo generator draws the identifier from a UUID generator
//! and the payload from an alphanumeric sampler; both draws are random, so
//! nothing is claimed about the bytes beyond their shape.

use vstd::prelude::*;
use rand::distributions::{Alphanumeric, DistString};

verus! {

/// Number of bytes in the hyphenated text form of a UUID.
pub const ID_LEN: usize = 36;

/// Number of bytes of filler payload a generated record carries.
pub const PAYLOAD_LEN: usize = 16;

/// One stored record: an opaque unique identifier and a payload, both kept
/// as bytes. Immutable once written; there is no update or delete path.
#[derive(Clone, Debug, PartialEq)]
pub struct Record {
    pub id: Vec<u8>,
    pub payload: Vec<u8>,
}

/// A lower-case hexadecimal digit byte.
pub open spec fn is_hex_lower_byte(b: u8) -> bool {
    (48 <= b && b <= 57) || (97 <= b && b <= 102)
}

/// The positions that hold a hyphen in the hyphenated text form of a
/// UUID, which groups its digits as 8-4-4-4-12.
pub open spec fn is_uuid_hyphen_pos(i: int) -> bool {
    i == 8 || i == 13 || i == 18 || i == 23
}

/// The hyphenated lower-case text form of a UUID: 36 bytes, hyphens at
/// the four fixed group separators, lower-case hex digits everywhere
/// else.
pub open spec fn is_uuid_text(s: Seq<u8>) -> bool {
    &&& s.len() == ID_LEN
    &&& forall|i: int|
        0 <= i < s.len() ==> {
            let b = #[trigger] s[i];
            if is_uuid_hyphen_pos(i) {
                b == 45
            } else {
                is_hex_lower_byte(b)
            }
        }
}

/// An ASCII alphanumeric byte.
pub open spec fn is_alphanumeric_byte(b: u8) -> bool {
    (48 <= b && b <= 57) || (97 <= b && b <= 122) || (65 <= b && b <= 90)
}

/// The shape every generated record has: a UUID-formed identifier and a
/// 16-byte alphanumeric payload.
pub open spec fn record_well_formed(r: Record) -> bool {
    &&& is_uuid_text(r.id@)
    &&& r.payload@.len() == PAYLOAD_LEN
    &&& forall|i: int| 0 <= i < r.payload@.len() ==> is_alphanumeric_byte(#[trigger] r.payload@[i])
}

/// Relies on `uuid::Uuid::new_v4` and its `Display` form: a version-4 UUID
/// printed hyphenated and lower-case, five groups of 8, 4, 4, 4 and 12 hex
/// digits separated by hyphens. The value is random, so only the shape is
/// stated.
#[verifier::external_body]
fn fresh_id_bytes() -> (r: Vec<u8>)
    ensures
        is_uuid_text(r@),
{
    uuid::Uuid::new_v4().to_string().into_bytes()
}

/// Relies on `rand::distributions::Alphanumeric::sample_string`: a string
/// of exactly `len` characters, each sampled uniformly from the ASCII
/// alphanumeric range. The value is random, so only the shape is stated.
#[verifier::external_body]
fn fresh_payload_bytes(len: usize) -> (r: Vec<u8>)
    ensures
        r@.len() == len,
        forall|i: int| 0 <= i < r@.len() ==> is_alphanumeric_byte(#[trigger] r@[i]),
{
    Alphanumeric.sample_string(&mut rand::thread_rng(), len).into_bytes()
}

/// Produces a fresh record for a demonstration insert: a practically
/// collision-free identifier and 16 bytes of filler payload.
pub fn generate_record() -> (r: Record)
    ensures
        record_well_formed(r),
{
    Record { id: fresh_id_bytes(), payload: fresh_payload_bytes(PAYLOAD_LEN) }
}

} // verus!
