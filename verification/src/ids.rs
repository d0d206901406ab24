//! Identifiers used throughout the hub.

use vstd::prelude::*;

verus! {

/// The 128-bit identifier of a user.
#[derive(Clone, Copy, Debug, PartialEq, Eq, Structural, Hash)]
pub struct UserId {
    pub value: u128,
}

/// The 128-bit value that `uuid::Uuid::parse_str` reads from `text`, or
/// `None` where it reports an error.
pub uninterp spec fn uuid_parsed(text: Seq<char>) -> Option<u128>;

/// The hexadecimal digit, in lower case, of a number below sixteen.
pub open spec fn hex_digit(n: u128) -> char {
    if n == 0 {
        '0'
    } else if n == 1 {
        '1'
    } else if n == 2 {
        '2'
    } else if n == 3 {
        '3'
    } else if n == 4 {
        '4'
    } else if n == 5 {
        '5'
    } else if n == 6 {
        '6'
    } else if n == 7 {
        '7'
    } else if n == 8 {
        '8'
    } else if n == 9 {
        '9'
    } else if n == 10 {
        'a'
    } else if n == 11 {
        'b'
    } else if n == 12 {
        'c'
    } else if n == 13 {
        'd'
    } else if n == 14 {
        'e'
    } else {
        'f'
    }
}

/// The `k`-th of the thirty-two hexadecimal digits of `value`, counted from
/// the most significant.
pub open spec fn uuid_digit(value: u128, k: int) -> char {
    hex_digit((value >> ((4 * (31 - k)) as u128)) & 0xf)
}

/// How many hyphens stand before the place `i` of a hyphenated UUID.
pub open spec fn hyphens_before(i: int) -> int {
    if i < 8 {
        0
    } else if i < 13 {
        1
    } else if i < 18 {
        2
    } else if i < 23 {
        3
    } else {
        4
    }
}

/// The text of the UUID with the 128-bit value `value`: thirty-two
/// hexadecimal digits in lower case, from the most significant to the least,
/// in groups of eight, four, four, four and twelve with hyphens between.
pub open spec fn uuid_text(value: u128) -> Seq<char> {
    Seq::new(
        36,
        |i: int|
            if i == 8 || i == 13 || i == 18 || i == 23 {
                '-'
            } else {
                uuid_digit(value, i - hyphens_before(i))
            },
    )
}

/// Calls `Uuid::parse_str` and hands out the identifier's value with
/// `Uuid::as_u128`. The contract names the outcome [`uuid_parsed`]: the same
/// text always reads as the same value, or always fails.
#[verifier::external_body]
fn parse_uuid(text: &str) -> (value: Option<u128>)
    ensures
        value == uuid_parsed(text@),
{
    match uuid::Uuid::parse_str(text) {
        Ok(id) => Some(id.as_u128()),
        Err(_) => None,
    }
}

/// Makes the `Uuid` of a value with `Uuid::from_u128` and writes it with its
/// `Display`, which gives the hyphenated form in lower case. The contract
/// also states what the crate documents of `parse_str`: it reads every form
/// that the crate writes, and reads back the value written.
#[verifier::external_body]
fn format_uuid(value: u128) -> (text: String)
    ensures
        text@ == uuid_text(value),
        uuid_parsed(text@) == Some(value),
{
    uuid::Uuid::from_u128(value).to_string()
}

impl UserId {
    /// Reads a user identifier from any of the textual forms of a UUID.
    pub fn parse(text: &str) -> (id: Option<UserId>)
        ensures
            id == match uuid_parsed(text@) {
                Some(value) => Some(UserId { value }),
                None => None,
            },
    {
        match parse_uuid(text) {
            Some(value) => Some(UserId { value }),
            None => None,
        }
    }

    /// The identifier as a hyphenated UUID in lower case, which
    /// [`UserId::parse`] reads back.
    pub fn to_text(&self) -> (text: String)
        ensures
            text@ == uuid_text(self.value),
            uuid_parsed(text@) == Some(self.value),
    {
        format_uuid(self.value)
    }

    /// Wraps a raw 128-bit value.
    pub fn from_u128(value: u128) -> (id: UserId)
        ensures
            id.value == value,
    {
        UserId { value }
    }

    /// The raw 128-bit value.
    pub fn as_u128(&self) -> (value: u128)
        ensures
            value == self.value,
    {
        self.value
    }
}

/// Identifies one registration of a connection. The registry hands the
/// identifiers out in increasing order.
#[derive(Clone, Copy, Debug, PartialEq, Eq, Structural, Hash)]
pub struct ConnectionId {
    pub value: u64,
}

} // verus!
