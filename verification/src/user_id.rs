//! Identifiers of users: 128-bit values laid out as UUIDs.
//!
//! The `uuid` crate draws the random identifiers and writes their text form;
//! this module states what the rest of the library relies on from it.

use vstd::prelude::*;

verus! {

/// A user's identifier. `bits` holds the sixteen bytes of the UUID, the first
/// byte in the most significant place.
#[derive(Clone, Copy, Debug, PartialEq, Eq, Hash, Structural)]
pub struct UserId {
    pub bits: u128,
}

/// The lower-case hexadecimal digit for a value below sixteen.
pub open spec fn hex_char(n: u128) -> char {
    if n < 10 {
        ('0' as u128 + n) as char
    } else {
        ('a' as u128 + n - 10) as char
    }
}

/// The digit at place `k` of the 32 hexadecimal digits of `bits`, counted
/// from the most significant one.
pub open spec fn hex_digit_at(bits: u128, k: int) -> char {
    hex_char((bits >> ((4 * (31 - k)) as u128)) & 0xf)
}

/// The text form of an identifier: its 32 lower-case hexadecimal digits in
/// groups of 8, 4, 4, 4 and 12, with a hyphen between two groups.
pub open spec fn hyphenated_text(bits: u128) -> Seq<char> {
    Seq::new(
        36,
        |i: int|
            if i == 8 || i == 13 || i == 18 || i == 23 {
                '-'
            } else if i < 8 {
                hex_digit_at(bits, i)
            } else if i < 13 {
                hex_digit_at(bits, i - 1)
            } else if i < 18 {
                hex_digit_at(bits, i - 2)
            } else if i < 23 {
                hex_digit_at(bits, i - 3)
            } else {
                hex_digit_at(bits, i - 4)
            },
    )
}

/// Whether `bits` carries the version number 4 (random) and the variant of
/// RFC 9562 in the places that the layout reserves for them.
pub open spec fn is_version_4(bits: u128) -> bool {
    (bits >> 76) & 0xf == 4 && (bits >> 62) & 0x3 == 2
}

/// Calls `uuid::Uuid::new_v4` and hands the identifier back as a number.
///
/// Trusted: whatever the random source gave, `new_v4` overwrites the version
/// digit with 4 and the two variant bits with binary 10. Nothing else is
/// claimed of the value. The call panics if the operating system cannot
/// supply random bytes.
#[verifier::external_body]
fn new_v4_bits() -> (bits: u128)
    ensures
        is_version_4(bits),
{
    uuid::Uuid::new_v4().as_u128()
}

/// Formats the identifier with the `Display` impl of `uuid::Uuid`.
///
/// Trusted: `Display` writes the hyphenated lower-case form, which is
/// `hyphenated_text` of the same 128 bits.
#[verifier::external_body]
fn display_of_bits(bits: u128) -> (text: String)
    ensures
        text@ == hyphenated_text(bits),
{
    format!("{}", uuid::Uuid::from_u128(bits))
}

impl UserId {
    /// A fresh random identifier.
    pub fn random() -> (id: UserId)
        ensures
            is_version_4(id.bits),
    {
        UserId { bits: new_v4_bits() }
    }

    /// The text form, as it appears in paths and messages.
    pub fn hyphenated(&self) -> (text: String)
        ensures
            text@ == hyphenated_text(self.bits),
    {
        display_of_bits(self.bits)
    }
}

/// Whether `c` is one of `0` to `9` or `a` to `f`.
pub open spec fn is_lower_hex(c: char) -> bool {
    ('0' <= c && c <= '9') || ('a' <= c && c <= 'f')
}

/// Whether `text` has the shape of an identifier: 36 characters, hyphens at
/// the places 8, 13, 18 and 23, and lower-case hexadecimal digits elsewhere.
pub open spec fn is_well_formed(text: Seq<char>) -> bool {
    &&& text.len() == 36
    &&& forall|i: int|
        0 <= i < 36 ==> if i == 8 || i == 13 || i == 18 || i == 23 {
            #[trigger] text[i] == '-'
        } else {
            is_lower_hex(text[i])
        }
}

proof fn lemma_hex_digit_at_is_lower_hex(bits: u128, k: int)
    requires
        0 <= k < 32,
    ensures
        is_lower_hex(hex_digit_at(bits, k)),
{
    let shift = (4 * (31 - k)) as u128;
    let n = (bits >> shift) & 0xf;
    assert(n < 16) by (bit_vector)
        requires
            n == (bits >> shift) & 0xf,
    ;
}

/// The text form of every identifier is well formed.
pub proof fn lemma_hyphenated_text_is_well_formed(bits: u128)
    ensures
        is_well_formed(hyphenated_text(bits)),
{
    let text = hyphenated_text(bits);
    assert forall|i: int| 0 <= i < 36 implies if i == 8 || i == 13 || i == 18 || i == 23 {
        #[trigger] text[i] == '-'
    } else {
        is_lower_hex(text[i])
    } by {
        if i < 8 {
            lemma_hex_digit_at_is_lower_hex(bits, i);
        } else if 8 < i < 13 {
            lemma_hex_digit_at_is_lower_hex(bits, i - 1);
        } else if 13 < i < 18 {
            lemma_hex_digit_at_is_lower_hex(bits, i - 2);
        } else if 18 < i < 23 {
            lemma_hex_digit_at_is_lower_hex(bits, i - 3);
        } else if 23 < i {
            lemma_hex_digit_at_is_lower_hex(bits, i - 4);
        }
    }
}

/// In the text form of a random identifier the third group starts with `4`,
/// and the fourth with one of `8`, `9`, `a` and `b`.
pub proof fn lemma_version_4_shows_in_the_text(bits: u128)
    requires
        is_version_4(bits),
    ensures
        hyphenated_text(bits)[14] == '4',
        hyphenated_text(bits)[19] == '8' || hyphenated_text(bits)[19] == '9' || hyphenated_text(
            bits,
        )[19] == 'a' || hyphenated_text(bits)[19] == 'b',
{
    let n = (bits >> 60) & 0xf;
    assert(8 <= n <= 11) by (bit_vector)
        requires
            (bits >> 62) & 0x3 == 2,
            n == (bits >> 60) & 0xf,
    ;
}

} // verus!
