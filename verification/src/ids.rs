//! Identifiers: 128-bit UUIDs and their text.

use vstd::prelude::*;

verus! {

/// A UUID, as the number that its sixteen bytes write, highest first.
pub type Uuid = u128;

/// The identifier whose bytes are all zero.
pub const NIL: Uuid = 0;

/// The hexadecimal digit of a value below sixteen, in lower case.
pub open spec fn hex_digit(v: int) -> char {
    if v < 10 {
        (('0' as u32) + v) as char
    } else {
        (('a' as u32) + (v - 10)) as char
    }
}

/// The text of a UUID: thirty-two hexadecimal digits, highest first, in groups
/// of 8, 4, 4, 4 and 12 with hyphens between them.
pub open spec fn hyphenated(id: Uuid) -> Seq<char> {
    Seq::new(
        36,
        |i: int|
            if i == 8 || i == 13 || i == 18 || i == 23 {
                '-'
            } else {
                let hyphens: int = if i < 8 {
                    0
                } else if i < 13 {
                    1
                } else if i < 18 {
                    2
                } else if i < 23 {
                    3
                } else {
                    4
                };
                hex_digit((id as int / vstd::arithmetic::power::pow(16, (31 - (i - hyphens)) as nat)) % 16)
            },
    )
}

/// The UUID that a text writes in any of the forms that the `uuid` crate reads.
pub uninterp spec fn uuid_value(s: Seq<char>) -> Option<Uuid>;

/// The text of a UUID, from the `Display` of `uuid::Uuid`: the hyphenated form
/// in lower case.
#[verifier::external_body]
pub(crate) fn uuid_text(id: Uuid) -> (r: String)
    ensures
        r@ == hyphenated(id),
{
    uuid::Uuid::from_u128(id).to_string()
}

/// The UUID that a text writes, from `uuid::Uuid::parse_str`. Which texts it
/// reads beside the hyphenated form is left to that function; the hyphenated
/// form gives back the UUID that it was made from.
#[verifier::external_body]
pub(crate) fn uuid_parse(s: &str) -> (r: Option<Uuid>)
    ensures
        r == uuid_value(s@),
        forall|id: Uuid| s@ == #[trigger] hyphenated(id) ==> r == Some(id),
{
    Some(uuid::Uuid::parse_str(s).ok()?.as_u128())
}

/// The version and variant marks of a random UUID.
pub open spec fn is_random_uuid(id: Uuid) -> bool {
    (id >> 76u128) & 0xf == 4 && (id >> 62u128) & 0x3 == 2
}

/// A random UUID, from `uuid::Uuid::new_v4`: whatever its random bits are,
/// it carries the marks of one.
#[verifier::external_body]
pub(crate) fn new_uuid() -> (r: Uuid)
    ensures
        is_random_uuid(r),
{
    uuid::Uuid::new_v4().as_u128()
}

/// All of these carry the marks of random UUIDs.
pub open spec fn are_random_uuids(drawn: Seq<Uuid>) -> bool {
    forall|i: int| 0 <= i < drawn.len() ==> is_random_uuid(#[trigger] drawn[i])
}

/// Draws as many random UUIDs.
pub(crate) fn new_uuids(n: usize) -> (r: Vec<Uuid>)
    ensures
        r@.len() == n,
        are_random_uuids(r@),
{
    let mut r: Vec<Uuid> = Vec::new();
    let mut i: usize = 0;
    while i < n
        invariant
            i <= n,
            r@.len() == i,
            are_random_uuids(r@),
        decreases n - i,
    {
        r.push(new_uuid());
        i += 1;
    }
    r
}

/// The UUID that a stored text writes, or the nil one where it writes none.
pub open spec fn stored_id(s: Seq<char>) -> Uuid {
    match uuid_value(s) {
        Some(id) => id,
        None => NIL,
    }
}

/// Reads a stored identifier; text that is not a UUID reads as the nil one.
pub fn read_id(s: &str) -> (r: Uuid)
    ensures
        r == stored_id(s@),
        forall|id: Uuid| s@ == #[trigger] hyphenated(id) ==> r == id,
{
    match uuid_parse(s) {
        Some(id) => id,
        None => NIL,
    }
}

} // verus!
