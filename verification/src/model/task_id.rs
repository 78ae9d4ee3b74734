//! Task identity.

use vstd::arithmetic::power::pow;
use vstd::arithmetic::power2::pow2;
use vstd::prelude::*;

verus! {

/// Identifies one accepted task submission.
///
/// The service generates IDs when it accepts requests. Callers should keep an
/// ID to query, cancel, or wait for that same submission; business identifiers
/// belong in a request's correlation key. The identifier is a UUID held as its
/// 128-bit big-endian value, so numeric order is the order of the UUID's bytes.
#[derive(Debug, Clone, Copy, PartialEq, Eq, Hash, PartialOrd, Ord, Structural)]
pub struct TaskId(pub u128);

impl TaskId {
    /// Generates an unpredictable identifier for a new task submission.
    ///
    /// Whatever the random source gives, the identifier carries UUID version 4
    /// and the RFC 9562 variant.
    pub fn generate() -> (id: TaskId)
        ensures
            is_random_uuid(id.0),
    {
        TaskId(random_uuid())
    }

    /// Writes the identifier as a hyphenated lower-case UUID.
    pub fn text(&self) -> (text: String)
        ensures
            text@ == uuid_text(self.0),
    {
        hyphenated(self.0)
    }
}

/// Whether `value` carries version 4 and the RFC 9562 variant of a UUID.
pub open spec fn is_random_uuid(value: u128) -> bool {
    &&& (value as nat / pow2(76)) % 16 == 4
    &&& (value as nat / pow2(62)) % 4 == 2
}

/// One lower-case hexadecimal digit.
pub open spec fn hex_char(digit: nat) -> char {
    if digit < 10 {
        (('0' as u32) + digit) as char
    } else {
        (('a' as u32) + (digit - 10)) as char
    }
}

/// The hexadecimal digit of `value` at `position`, counted from the most
/// significant of its 32 digits.
pub open spec fn hex_digit_at(value: u128, position: int) -> nat {
    ((value as int / pow(16, (31 - position) as nat)) % 16) as nat
}

/// The 36 characters of a hyphenated UUID: digit groups of 8, 4, 4, 4 and 12.
pub open spec fn uuid_text(value: u128) -> Seq<char> {
    Seq::new(
        36,
        |i: int|
            if i == 8 || i == 13 || i == 18 || i == 23 {
                '-'
            } else {
                hex_char(hex_digit_at(value, text_position(i)))
            },
    )
}

/// Which digit the character at index `i` of a hyphenated UUID shows.
pub open spec fn text_position(i: int) -> int {
    if i < 8 {
        i
    } else if i < 13 {
        i - 1
    } else if i < 18 {
        i - 2
    } else if i < 23 {
        i - 3
    } else {
        i - 4
    }
}

/// Calls `uuid::Uuid::new_v4` and reads the identifier as a big-endian number.
///
/// The bits come from the operating system's random source, without which the
/// call panics; trusted here is only that the version nibble is 4 and the two
/// variant bits are `10`.
#[verifier::external_body]
fn random_uuid() -> (value: u128)
    ensures
        is_random_uuid(value),
{
    uuid::Uuid::new_v4().as_u128()
}

/// Calls `uuid::Uuid::from_u128` and writes the result with the `Display` of
/// `uuid::Uuid`.
///
/// Trusted here is that the text is the hyphenated lower-case form of the
/// number.
#[verifier::external_body]
fn hyphenated(value: u128) -> (text: String)
    ensures
        text@ == uuid_text(value),
{
    uuid::Uuid::from_u128(value).to_string()
}

} // verus!
