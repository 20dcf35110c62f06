//! Account identifiers: 128-bit UUIDs, their canonical text, parsing and
//! random generation (all done by the `uuid` crate).

use vstd::prelude::*;
use vstd::arithmetic::power2::pow2;

verus! {

/// Lower-case hexadecimal digit for a value in `0..16`.
pub open spec fn hex_lower_digit(n: int) -> char {
    if n < 10 {
        (48 + n) as char
    } else {
        (87 + n) as char
    }
}

/// The `k`-th hexadecimal digit of `v`, counting from the most significant
/// of its 32 digits.
pub open spec fn uuid_nibble(v: u128, k: int) -> int {
    ((v as int) / (pow2((4 * (31 - k)) as nat) as int)) % 16
}

/// Which of the 32 digits stands at position `i` of the hyphenated text.
pub open spec fn uuid_digit_position(i: int) -> int {
    if i < 8 {
        i
    } else if i < 13 {
        i - 1
    } else if i < 18 {
        i - 2
    } else if i < 23 {
        i - 3
    } else {
        i - 4
    }
}

/// The hyphenated lower-case text of a UUID: 32 hexadecimal digits, most
/// significant first, in groups of 8-4-4-4-12 separated by hyphens.
pub open spec fn uuid_text(v: u128) -> Seq<char> {
    Seq::new(
        36,
        |i: int|
            if i == 8 || i == 13 || i == 18 || i == 23 {
                '-'
            } else {
                hex_lower_digit(uuid_nibble(v, uuid_digit_position(i)))
            },
    )
}

/// What `uuid::Uuid::parse_str` gives for a text: the UUID as a 128-bit value
/// (most significant byte first), or the text of the parse error.
pub uninterp spec fn uuid_parse_result(text: Seq<char>) -> Result<u128, Seq<char>>;

/// A parse outcome with its error text taken by its view.
pub open spec fn parse_outcome(r: Result<u128, String>) -> Result<u128, Seq<char>> {
    match r {
        Ok(v) => Ok(v),
        Err(e) => Err(e@),
    }
}

/// Calls `uuid::Uuid::parse_str`. It accepts the simple, hyphenated, braced
/// and URN forms; which texts it accepts and the wording of its errors are
/// named by `uuid_parse_result`. Stated besides: the hyphenated lower-case
/// text of a value (what `Uuid`'s `Display` writes) parses back to it.
#[verifier::external_body]
pub(crate) fn parse_uuid(text: &str) -> (r: Result<u128, String>)
    ensures
        parse_outcome(r) == uuid_parse_result(text@),
        forall|v: u128| text@ == uuid_text(v) ==> (r is Ok && r->Ok_0 == v),
{
    match uuid::Uuid::parse_str(text) {
        Ok(id) => Ok(id.as_u128()),
        Err(e) => Err(e.to_string()),
    }
}

/// Calls `Display` of `uuid::Uuid` (through `to_string`) on the UUID with
/// the given value: it writes the hyphenated lower-case form.
#[verifier::external_body]
pub(crate) fn uuid_to_string(id: u128) -> (r: String)
    ensures
        r@ == uuid_text(id),
{
    uuid::Uuid::from_u128(id).to_string()
}

/// Calls `uuid::Uuid::new_v4`: a random UUID. Every outcome carries the
/// version number 4 and the RFC 4122 variant bits; nothing else is known.
#[verifier::external_body]
pub(crate) fn new_random_uuid() -> (r: u128)
    ensures
        (r >> 76u128) & 0xfu128 == 4,
        (r >> 62u128) & 3u128 == 2,
{
    uuid::Uuid::new_v4().as_u128()
}

} // verus!
