//! Identifiers of streams, jobs, tools and versions: UUIDs, held as their
//! 128-bit value and written in the hyphenated form.
use vstd::prelude::*;
use crate::session::hex_digit;

verus! {

/// The last `k` hexadecimal digits of `n` (leading zeros kept).
pub open spec fn hex_fixed(n: nat, k: nat) -> Seq<char>
    decreases k,
{
    if k == 0 {
        Seq::empty()
    } else {
        hex_fixed(n / 16, (k - 1) as nat).push(hex_digit(n % 16))
    }
}

/// The hyphenated text of a UUID: its 32 lowercase hexadecimal digits in
/// groups of 8, 4, 4, 4 and 12, joined by `-`.
pub open spec fn uuid_text(u: u128) -> Seq<char> {
    let h = hex_fixed(u as nat, 32);
    h.subrange(0, 8) + seq!['-'] + h.subrange(8, 12) + seq!['-'] + h.subrange(12, 16) + seq!['-']
        + h.subrange(16, 20) + seq!['-'] + h.subrange(20, 32)
}

/// The UUID that `uuid::Uuid::parse_str` reads from a text, if it accepts it.
pub uninterp spec fn uuid_parse_of(text: Seq<char>) -> Option<u128>;

/// `uuid::Uuid::parse_str`, the UUID taken as its 128-bit value
/// (`Uuid::as_u128`). Which texts it accepts (hyphenated, simple, braced
/// and URN forms) is left to the name `uuid_parse_of`.
#[verifier::external_body]
pub(crate) fn parse_uuid(text: &str) -> (r: Option<u128>)
    ensures
        r == uuid_parse_of(text@),
{
    uuid::Uuid::parse_str(text).ok().map(|u| u.as_u128())
}

/// `Uuid::from_u128(u).to_string()`: the hyphenated lowercase form, which
/// `Uuid::parse_str` reads back as the same UUID.
#[verifier::external_body]
pub(crate) fn uuid_string(u: u128) -> (r: String)
    ensures
        r@ == uuid_text(u),
        uuid_parse_of(r@) == Some(u),
{
    uuid::Uuid::from_u128(u).to_string()
}

/// The marks of a random (version 4) UUID in hyphenated form: the version
/// digit `4` opens the third group, and the variant digit that opens the
/// fourth group is one of `8`, `9`, `a` and `b`.
pub open spec fn v4_marks(t: Seq<char>) -> bool {
    &&& t.len() == 36
    &&& t[14] == '4'
    &&& (t[19] == '8' || t[19] == '9' || t[19] == 'a' || t[19] == 'b')
}

/// `Uuid::new_v4().to_string()`: a fresh random UUID in hyphenated form,
/// with the version and variant bits that `new_v4` sets. Which UUID comes
/// out is chance; only its form is stated.
#[verifier::external_body]
pub(crate) fn random_uuid_string() -> (r: String)
    ensures
        exists|u: u128| r@ == uuid_text(u),
        v4_marks(r@),
{
    uuid::Uuid::new_v4().to_string()
}

} // verus!
