use vstd::prelude::*;

verus! {

/// Whether `v` carries the version bits (4) and the variant bits (RFC 4122)
/// of a randomly generated UUID, reading `v` as the big-endian value of the UUID.
pub open spec fn is_random_uuid(v: u128) -> bool {
    &&& (v >> 76u128) & 0xfu128 == 4u128
    &&& (v >> 62u128) & 0x3u128 == 2u128
}

/// The lowercase hexadecimal digit of `n`, for `0 <= n < 16`.
pub open spec fn hex_digit(n: u128) -> char {
    if n < 10 {
        (('0' as int) + n) as char
    } else {
        (('a' as int) + n - 10) as char
    }
}

/// The `k`-th hexadecimal digit of `v`, counted from the most significant one.
pub open spec fn uuid_nibble(v: u128, k: int) -> u128 {
    (v >> ((124 - 4 * k) as u128)) & 0xfu128
}

/// How many dashes of the hyphenated form stand before position `i`.
pub open spec fn dashes_before(i: int) -> int {
    if i > 23 {
        4
    } else if i > 18 {
        3
    } else if i > 13 {
        2
    } else if i > 8 {
        1
    } else {
        0
    }
}

/// The hyphenated lowercase text of a UUID: 32 hexadecimal digits in groups
/// of 8, 4, 4, 4 and 12, separated by dashes.
pub open spec fn hyphenated_uuid(v: u128) -> Seq<char> {
    Seq::new(
        36,
        |i: int|
            if i == 8 || i == 13 || i == 18 || i == 23 {
                '-'
            } else {
                hex_digit(uuid_nibble(v, i - dashes_before(i)))
            },
    )
}

/// Calls `uuid::Uuid::new_v4` and reads the UUID as a big-endian `u128`.
/// The value is random; the contract claims only that the version and
/// variant bits are those of a version 4 UUID, which `new_v4` sets by masking.
#[verifier::external_body]
pub(crate) fn new_random_uuid() -> (v: u128)
    ensures
        is_random_uuid(v),
{
    uuid::Uuid::new_v4().as_u128()
}

/// Calls `to_string` (the `Display` impl) on `uuid::Uuid::from_u128(v)`.
/// The contract claims the text is the hyphenated lowercase form of `v`,
/// which is what `Display` writes through `Hyphenated`.
#[verifier::external_body]
pub(crate) fn uuid_text(v: u128) -> (s: String)
    ensures
        s@ == hyphenated_uuid(v),
{
    uuid::Uuid::from_u128(v).to_string()
}

} // verus!
