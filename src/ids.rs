//! Identifiers and digests computed by outside crates.

use vstd::prelude::*;

verus! {

/// What `uuid::Uuid::parse_str` reads from a text: `Some` of the 128-bit value, or `None`.
pub uninterp spec fn uuid_parse(s: Seq<char>) -> Option<u128>;

/// The text that `uuid::Uuid`'s `Display` writes for a 128-bit value.
pub uninterp spec fn uuid_text(u: u128) -> Seq<char>;

/// A lower-case hexadecimal digit.
pub open spec fn is_lower_hex(c: char) -> bool {
    ('0' <= c && c <= '9') || ('a' <= c && c <= 'f')
}

/// The character at position `i` of a hyphenated UUID text may be `c`.
pub open spec fn fits_uuid_position(c: char, i: int) -> bool {
    if i == 8 || i == 13 || i == 18 || i == 23 {
        c == '-'
    } else {
        is_lower_hex(c)
    }
}

/// A UUID in hyphenated lower-case form: 8-4-4-4-12 hexadecimal digits.
pub open spec fn is_uuid_text(s: Seq<char>) -> bool {
    s.len() == 36 && forall|i: int| 0 <= i < 36 ==> #[trigger] fits_uuid_position(s[i], i)
}

/// The BLAKE3 digest of the UTF-8 encoding of a text.
pub uninterp spec fn token_digest(s: Seq<char>) -> Seq<u8>;

/// Relies on `uuid::Uuid::parse_str`: its result depends on the text alone.
#[verifier::external_body]
pub(crate) fn parse_uuid(s: &str) -> (r: Option<u128>)
    ensures
        r == uuid_parse(s@),
{
    uuid::Uuid::parse_str(s).ok().map(|u| u.as_u128())
}

/// Relies on `uuid::Uuid`'s `Display`: the hyphenated lower-case form of
/// 36 characters, which `uuid::Uuid::parse_str` reads back to the same value.
#[verifier::external_body]
pub(crate) fn uuid_to_text(u: u128) -> (r: String)
    ensures
        r@ == uuid_text(u),
        r@.len() == 36,
        is_uuid_text(r@),
        uuid_parse(r@) == Some(u),
{
    uuid::Uuid::from_u128(u).to_string()
}

/// Relies on `uuid::Uuid::new_v4`: a random identifier; nothing is known of its value.
#[verifier::external_body]
pub(crate) fn random_uuid() -> (r: u128) {
    uuid::Uuid::new_v4().as_u128()
}

/// Relies on `blake3::hash`: a 32-byte digest that depends on the input bytes alone.
#[verifier::external_body]
pub(crate) fn digest_token(s: &str) -> (r: Vec<u8>)
    ensures
        r@ == token_digest(s@),
        r@.len() == 32,
{
    blake3::hash(s.as_bytes()).as_bytes().to_vec()
}

} // verus!
