//! Record identifiers: 128-bit UUID values, their text form, and fresh ones.
use vstd::prelude::*;
use vstd::arithmetic::power2::pow2;

verus! {

/// The lower-case hexadecimal digit for `d` (0 to 15).
pub open spec fn hex_digit(d: int) -> char {
    if d < 10 {
        (48 + d) as char
    } else {
        (87 + d) as char
    }
}

/// The `k`-th of the 32 hexadecimal digits of `id`, counted from the most
/// significant one.
pub open spec fn uuid_nibble(id: u128, k: int) -> int {
    ((id as int) / (pow2((4 * (31 - k)) as nat) as int)) % 16
}

/// How many of the four hyphens of the hyphenated form stand before position `i`.
pub open spec fn hyphens_before(i: int) -> int {
    (if i > 8 { 1int } else { 0int }) + (if i > 13 { 1int } else { 0int }) + (if i > 18 {
        1int
    } else {
        0int
    }) + (if i > 23 { 1int } else { 0int })
}

/// The hyphenated lower-case text of an identifier, such as
/// `67e55044-10b1-426f-9247-bb680e5fe0c8`: its 32 hexadecimal digits,
/// most significant first, in groups of 8, 4, 4, 4 and 12.
pub open spec fn uuid_text(id: u128) -> Seq<char> {
    Seq::new(
        36,
        |i: int|
            if i == 8 || i == 13 || i == 18 || i == 23 {
                '-'
            } else {
                hex_digit(uuid_nibble(id, i - hyphens_before(i)))
            },
    )
}

/// The identifier that `uuid::Uuid::parse_str` reads from `text`, if any.
pub uninterp spec fn uuid_parsed(text: Seq<char>) -> Option<u128>;

/// Formats an identifier with `uuid::Uuid`'s `Display` (`to_string`).
/// Trusted: the result is the hyphenated lower-case text (as the crate's
/// `fmt.rs` writes it), and `uuid::Uuid::parse_str` reads that text back
/// as the same identifier.
#[verifier::external_body]
pub(crate) fn uuid_to_string(id: u128) -> (r: String)
    ensures
        r@ == uuid_text(id),
        uuid_parsed(r@) == Some(id),
{
    uuid::Uuid::from_u128(id).to_string()
}

/// Reads an identifier with `uuid::Uuid::parse_str`.
/// Trusted: the result is `uuid_parsed(text)`; which texts are accepted is
/// left to the name.
#[verifier::external_body]
pub(crate) fn parse_uuid(text: &str) -> (r: Option<u128>)
    ensures
        r == uuid_parsed(text@),
{
    uuid::Uuid::parse_str(text).ok().map(|u| u.as_u128())
}

/// A fresh random identifier from `uuid::Uuid::new_v4`.
/// Trusted: its version digit is 4 and its variant digit is one of 8, 9,
/// a, b (the crate sets those bits); the other digits are random and
/// nothing is said of them.
#[verifier::external_body]
pub(crate) fn new_id() -> (r: u128)
    ensures
        uuid_nibble(r, 12) == 4,
        8 <= uuid_nibble(r, 16) <= 11,
{
    uuid::Uuid::new_v4().as_u128()
}

} // verus!
