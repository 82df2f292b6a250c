//! Identifiers, digit by digit.

use crate::ids;
use crate::ids::Uuid;
use vstd::arithmetic::power;
use vstd::prelude::*;

verus! {

/// The hexadecimal digits are the ten decimal ones and the first six letters.
pub proof fn sixteen_digits_are_written(v: int)
    ensures
        0 <= v < 10 ==> ids::hex_digit(v) as u32 == 48 + v,
        10 <= v < 16 ==> ids::hex_digit(v) as u32 == 87 + v,
{
}

/// An identifier is written in groups of 8, 4, 4, 4 and 12 digits with hyphens
/// between them; the digits, the highest first, are those of the number.
pub proof fn an_identifier_is_written_in_groups(id: Uuid)
    ensures
        ({
            let s = ids::hyphenated(id);
            &&& s.len() == 36
            &&& s[8] == '-' && s[13] == '-' && s[18] == '-' && s[23] == '-'
            &&& forall|i: int|
                0 <= i < 8 ==> #[trigger] s[i] == ids::hex_digit(
                    (id as int / power::pow(16, (31 - i) as nat)) % 16,
                )
            &&& forall|i: int|
                9 <= i < 13 ==> #[trigger] s[i] == ids::hex_digit(
                    (id as int / power::pow(16, (32 - i) as nat)) % 16,
                )
            &&& forall|i: int|
                14 <= i < 18 ==> #[trigger] s[i] == ids::hex_digit(
                    (id as int / power::pow(16, (33 - i) as nat)) % 16,
                )
            &&& forall|i: int|
                19 <= i < 23 ==> #[trigger] s[i] == ids::hex_digit(
                    (id as int / power::pow(16, (34 - i) as nat)) % 16,
                )
            &&& forall|i: int|
                24 <= i < 36 ==> #[trigger] s[i] == ids::hex_digit(
                    (id as int / power::pow(16, (35 - i) as nat)) % 16,
                )
        }),
{
}

/// A random identifier has a four for its version, the thirteenth digit, and the
/// bits one and zero at the head of the seventeenth for its variant.
pub proof fn a_random_identifier_is_marked(id: Uuid)
    ensures
        ids::is_random_uuid(id) <==> (id / 0x1000_0000_0000_0000_0000) % 16 == 4 && (id
            / 0x4000_0000_0000_0000) % 4 == 2,
{
    assert((id >> 76u128) & 0xf == (id / 0x1000_0000_0000_0000_0000) % 16) by (bit_vector);
    assert((id >> 62u128) & 0x3 == (id / 0x4000_0000_0000_0000) % 4) by (bit_vector);
}

/// Identifiers carry the marks of random ones exactly if each of them does.
pub proof fn random_identifiers_are_each_marked(drawn: Seq<Uuid>)
    ensures
        ids::are_random_uuids(drawn) <==> forall|i: int|
            0 <= i < drawn.len() ==> ids::is_random_uuid(#[trigger] drawn[i]),
{
}

/// A stored text is read as the identifier that it writes, and as nought where it
/// writes none.
pub proof fn a_stored_text_is_read_as_it_writes(s: Seq<char>)
    ensures
        match ids::uuid_value(s) {
            Some(id) => ids::stored_id(s) == id,
            None => ids::stored_id(s) == 0,
        },
{
}

} // verus!
