//! Identifiers. Users are named by UUIDs, held as their 128-bit values;
//! rooms by numbers; a session handle names one connection instance.

use vstd::arithmetic::power::pow;
use vstd::prelude::*;

verus! {

/// A user's UUID as a 128-bit integer.
pub type UserId = u128;

/// The number that stands for a room. The relay takes any number; where
/// rooms are named by text, the room directory gives each name its number.
/// The nil id stands for no room.
pub type RoomId = u128;

/// Names one connection instance. Two connections of the same user carry
/// different handles, which is how a stale connection is told from a live one.
pub type SessionHandle = u64;

/// The handle that stands for no connection: the one under which a user is
/// put into a room from outside any connection while they have no session.
/// No connection may carry it.
pub const NO_CONNECTION: SessionHandle = 0;

/// The value of the nil UUID: all 128 bits zero.
pub open spec fn nil_id() -> u128 {
    0
}

/// Calls `uuid::Uuid::nil` and takes the result's `as_u128`.
///
/// Trusted: the nil UUID is sixteen zero bytes, and `as_u128` reads the bytes
/// as one big-endian integer, so the value is zero.
#[verifier::external_body]
pub(crate) fn nil_uuid() -> (id: u128)
    ensures
        id == nil_id(),
{
    uuid::Uuid::nil().as_u128()
}

/// The lower-case hexadecimal digit for a value below sixteen.
pub open spec fn hex_digit(value: int) -> char {
    if value < 10 {
        ((48 + value) as u8) as char
    } else {
        ((87 + value) as u8) as char
    }
}

/// The value of the `k`-th of the 32 hexadecimal digits of `id`, counted
/// from the most significant one.
pub open spec fn digit_at(id: u128, k: int) -> int {
    (id as int / pow(16, (31 - k) as nat)) % 16
}

/// The text of a UUID in its usual form: 32 lower-case hexadecimal digits,
/// most significant first, in groups of 8, 4, 4, 4 and 12 with a hyphen
/// between the groups.
pub open spec fn hyphenated(id: u128) -> Seq<char> {
    Seq::new(
        36,
        |i: int|
            if i == 8 || i == 13 || i == 18 || i == 23 {
                '-'
            } else if i < 8 {
                hex_digit(digit_at(id, i))
            } else if i < 13 {
                hex_digit(digit_at(id, i - 1))
            } else if i < 18 {
                hex_digit(digit_at(id, i - 2))
            } else if i < 23 {
                hex_digit(digit_at(id, i - 3))
            } else {
                hex_digit(digit_at(id, i - 4))
            },
    )
}

/// The nil id reads as zeros throughout.
pub proof fn lemma_nil_is_all_zeros()
    ensures
        hyphenated(nil_id()) == "00000000-0000-0000-0000-000000000000"@,
{
    reveal_strlit("00000000-0000-0000-0000-000000000000");
    let text = hyphenated(nil_id());
    let zeros = "00000000-0000-0000-0000-000000000000"@;
    assert forall|k: int| 0 <= k < 32 implies digit_at(nil_id(), k) == 0 by {
        vstd::arithmetic::power::lemma_pow_positive(16, (31 - k) as nat);
    }
    assert forall|i: int| 0 <= i < 36 implies text[i] == zeros[i] by {
        if i == 8 || i == 13 || i == 18 || i == 23 {
        } else if i < 8 {
            assert(digit_at(nil_id(), i) == 0);
        } else if i < 13 {
            assert(digit_at(nil_id(), i - 1) == 0);
        } else if i < 18 {
            assert(digit_at(nil_id(), i - 2) == 0);
        } else if i < 23 {
            assert(digit_at(nil_id(), i - 3) == 0);
        } else {
            assert(digit_at(nil_id(), i - 4) == 0);
        }
    }
    assert(text =~= zeros);
}

/// Formats `uuid::Uuid::from_u128(id)` with the crate's `Display`, which is
/// the hyphenated lower-case form.
///
/// Trusted: `from_u128` stores the value as sixteen big-endian bytes, and
/// the formatter writes two hexadecimal digits for each byte in turn, high
/// nibble first, with hyphens after the 8th, 12th, 16th and 20th digit.
#[verifier::external_body]
pub(crate) fn uuid_text(id: u128) -> (text: String)
    ensures
        text@ == hyphenated(id),
{
    uuid::Uuid::from_u128(id).to_string()
}

/// The id that `uuid::Uuid::parse_str` reads from a text, as a 128-bit
/// value, or `None` where it reads none.
pub uninterp spec fn uuid_of(text: Seq<char>) -> Option<u128>;

/// Calls `uuid::Uuid::parse_str` and takes the `as_u128` of what it reads.
///
/// Trusted: the parser looks at the text alone. It takes hexadecimal digits
/// in the simple, hyphenated, braced and URN forms; which texts exactly is
/// left to the crate.
#[verifier::external_body]
pub(crate) fn parse_uuid(text: &str) -> (id: Option<u128>)
    ensures
        id == uuid_of(text@),
{
    match uuid::Uuid::parse_str(text) {
        Ok(uuid) => Some(uuid.as_u128()),
        Err(_) => None,
    }
}

} // verus!
