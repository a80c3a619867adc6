//! Event identifiers: 128 bits, written as 32 hexadecimal digits in five
//! hyphen-separated groups.

use vstd::prelude::*;

verus! {

/// The identifier of an event.
#[derive(Debug, Clone, Copy, PartialEq, Eq, Structural)]
pub struct EventId {
    /// The identifier as one number, its first byte the most significant.
    pub bits: u128,
}

/// One of the sixteen lower-case hexadecimal digits.
pub open spec fn hex_char(value: u128) -> char {
    if value == 0 {
        '0'
    } else if value == 1 {
        '1'
    } else if value == 2 {
        '2'
    } else if value == 3 {
        '3'
    } else if value == 4 {
        '4'
    } else if value == 5 {
        '5'
    } else if value == 6 {
        '6'
    } else if value == 7 {
        '7'
    } else if value == 8 {
        '8'
    } else if value == 9 {
        '9'
    } else if value == 10 {
        'a'
    } else if value == 11 {
        'b'
    } else if value == 12 {
        'c'
    } else if value == 13 {
        'd'
    } else if value == 14 {
        'e'
    } else {
        'f'
    }
}

/// The four bits at one of the 32 digit places, place 0 being the most
/// significant.
pub open spec fn nibble(bits: u128, place: int) -> u128 {
    (bits >> ((124 - 4 * place) as u128)) & 0xf
}

/// The hyphenated form: 36 characters, hyphens at places 8, 13, 18 and 23,
/// and the 32 digits in order at the other places.
pub open spec fn hyphenated(bits: u128) -> Seq<char> {
    Seq::new(
        36,
        |i: int|
            if i == 8 || i == 13 || i == 18 || i == 23 {
                '-'
            } else if i < 8 {
                hex_char(nibble(bits, i))
            } else if i < 13 {
                hex_char(nibble(bits, i - 1))
            } else if i < 18 {
                hex_char(nibble(bits, i - 2))
            } else if i < 23 {
                hex_char(nibble(bits, i - 3))
            } else {
                hex_char(nibble(bits, i - 4))
            },
    )
}

/// Whether a character is a lower-case hexadecimal digit or a hyphen.
pub open spec fn is_hex_or_hyphen(c: char) -> bool {
    c == '-' || c == '0' || c == '1' || c == '2' || c == '3' || c == '4' || c == '5' || c == '6'
        || c == '7' || c == '8' || c == '9' || c == 'a' || c == 'b' || c == 'c' || c == 'd' || c
        == 'e' || c == 'f'
}

/// `Display` of `uuid::Uuid`, on the identifier that `Uuid::from_u128` makes
/// of the bits. Trusted: the text is the lower-case hyphenated form, which
/// the crate writes byte by byte from the big-endian bytes, high half first.
#[verifier::external_body]
fn uuid_display(bits: u128) -> (text: String)
    ensures
        text@ == hyphenated(bits),
{
    uuid::Uuid::from_u128(bits).to_string()
}

/// `Debug` of `uuid::Uuid` in its alternate form, on the identifier that
/// `Uuid::from_u128` makes of the bits. Trusted: the crate's `Debug` writes
/// what its `Display` writes, whatever the flags.
#[verifier::external_body]
fn uuid_debug(bits: u128) -> (text: String)
    ensures
        text@ == hyphenated(bits),
{
    format!("{:#?}", uuid::Uuid::from_u128(bits))
}

impl EventId {
    /// The identifier as it stands in a query.
    pub fn to_text(&self) -> (text: String)
        ensures
            text@ == hyphenated(self.bits),
    {
        uuid_display(self.bits)
    }

    /// The identifier as it stands in a printed row.
    pub fn debug_text(&self) -> (text: String)
        ensures
            text@ == hyphenated(self.bits),
    {
        uuid_debug(self.bits)
    }
}

/// The written form of an identifier holds hexadecimal digits and hyphens
/// only: no quote, no backslash, nothing that could end a quoted value.
pub proof fn hyphenated_is_plain(bits: u128)
    ensures
        hyphenated(bits).len() == 36,
        forall|i: int| 0 <= i < 36 ==> is_hex_or_hyphen(#[trigger] hyphenated(bits)[i]),
{
}

} // verus!
