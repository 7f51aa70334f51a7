//! UUIDs as 128-bit values: their text through the `uuid` crate.
use vstd::prelude::*;
use crate::text::hex_digit_char;

verus! {

/// Hexadecimal digit `k` (0 is the most significant of 32) of a UUID's value.
pub open spec fn uuid_nibble(v: u128, k: int) -> nat {
    ((v as nat) / vstd::arithmetic::power2::pow2((4 * (31 - k)) as nat)) % 16
}

/// The digits `from..to` of a UUID in lower-case hexadecimal.
pub open spec fn uuid_digits(v: u128, from: int, to: int) -> Seq<char> {
    Seq::new((to - from) as nat, |i: int| hex_digit_char(uuid_nibble(v, from + i)))
}

/// The hyphenated lower-case form of a UUID: 8-4-4-4-12 hexadecimal digits.
pub open spec fn hyphenated(v: u128) -> Seq<char> {
    uuid_digits(v, 0, 8) + "-"@ + uuid_digits(v, 8, 12) + "-"@ + uuid_digits(v, 12, 16) + "-"@
        + uuid_digits(v, 16, 20) + "-"@ + uuid_digits(v, 20, 32)
}

/// What `uuid::Uuid::parse_str` gives for a text: the UUID's value, or nothing
/// when the text is none of the forms it accepts.
pub uninterp spec fn uuid_parse(text: Seq<char>) -> Option<u128>;

/// Text of a UUID, through `Display` of `uuid::Uuid` (made with `Uuid::from_u128`),
/// which the crate documents as the hyphenated lower-case form.
#[verifier::external_body]
pub(crate) fn uuid_to_string(v: u128) -> (s: String)
    ensures
        s@ == hyphenated(v),
{
    uuid::Uuid::from_u128(v).to_string()
}

/// Parses a UUID through `uuid::Uuid::parse_str` (what `Uuid::from_str` calls).
/// The contract names the result; which texts the crate accepts is not
/// restated, beyond that the hyphenated form of a value gives that value back.
#[verifier::external_body]
pub(crate) fn parse_uuid(text: &str) -> (r: Option<u128>)
    ensures
        r == uuid_parse(text@),
        forall|v: u128| #[trigger] hyphenated(v) == text@ ==> r == Some(v),
{
    match uuid::Uuid::parse_str(text) {
        Ok(u) => Some(u.as_u128()),
        Err(_) => None,
    }
}

} // verus!
