//! Fresh identifiers and the time of day.

use vstd::prelude::*;

verus! {

/// Whether `c` is a digit or one of the letters `a` to `f`.
pub open spec fn is_lower_hex(c: char) -> bool {
    ('0' <= c && c <= '9') || ('a' <= c && c <= 'f')
}

/// Whether `s` is made of 32 lower-case hexadecimal digits.
pub open spec fn is_simple_id(s: Seq<char>) -> bool {
    s.len() == 32 && forall|i: int| 0 <= i < s.len() ==> is_lower_hex(#[trigger] s[i])
}

/// `Uuid::new_v4` of the uuid crate in its simple form: a random identifier
/// of 32 lower-case hexadecimal digits. Two calls differ.
#[verifier::external_body]
pub(crate) fn fresh_simple_id() -> (out: String)
    ensures
        is_simple_id(out@),
{
    uuid::Uuid::new_v4().simple().to_string()
}

/// What `Uuid::parse_str` makes of `input`: the 128 bits of the identifier,
/// or what the parser says is wrong with `input`.
pub uninterp spec fn uuid_parsed(input: Seq<char>) -> Result<u128, Seq<char>>;

/// `Uuid::parse_str` of the uuid crate, with the identifier handed out as
/// its 128 bits and the failure as its text: the result depends on the
/// text alone.
#[verifier::external_body]
pub(crate) fn parse_id(input: &str) -> (out: Result<u128, String>)
    ensures
        match out {
            Ok(bits) => uuid_parsed(input@) == Ok::<u128, Seq<char>>(bits),
            Err(message) => uuid_parsed(input@) == Err::<u128, Seq<char>>(message@),
        },
{
    match uuid::Uuid::parse_str(input) {
        Ok(id) => Ok(id.as_u128()),
        Err(e) => Err(e.to_string()),
    }
}

/// `Utc::now` of the chrono crate, as milliseconds since the Unix epoch.
/// It reads the clock: nothing is promised of the result.
#[verifier::external_body]
pub(crate) fn utc_now_millis() -> i64 {
    chrono::Utc::now().timestamp_millis()
}

/// The lower-case hexadecimal digit for `d`, which is below sixteen.
pub open spec fn hex_char(d: nat) -> char {
    if d < 10 {
        ((48 + d) as u8) as char
    } else {
        ((87 + d) as u8) as char
    }
}

/// The hexadecimal digit number `k` of `bits`, counted from the most significant.
pub open spec fn id_digit(bits: u128, k: int) -> char {
    hex_char(((bits >> (((31 - k) * 4) as u128)) & 0xf) as nat)
}

/// How the identifier with the bits `bits` is written: its 32 lower-case
/// hexadecimal digits in groups of 8, 4, 4, 4 and 12 with hyphens between.
pub open spec fn hyphenated(bits: u128) -> Seq<char> {
    Seq::new(
        36,
        |i: int|
            if i == 8 || i == 13 || i == 18 || i == 23 {
                '-'
            } else if i < 8 {
                id_digit(bits, i)
            } else if i < 13 {
                id_digit(bits, i - 1)
            } else if i < 18 {
                id_digit(bits, i - 2)
            } else if i < 23 {
                id_digit(bits, i - 3)
            } else {
                id_digit(bits, i - 4)
            },
    )
}

/// `Uuid::from_u128` of the uuid crate, written with hyphens: the digits of
/// the bits, most significant first, in lower case.
#[verifier::external_body]
pub(crate) fn format_id(bits: u128) -> (out: String)
    ensures
        out@ == hyphenated(bits),
{
    uuid::Uuid::from_u128(bits).to_string()
}

/// The bits of a fresh random identifier, from `Uuid::new_v4` of the uuid
/// crate. Nothing is promised of them; two calls differ.
#[verifier::external_body]
pub(crate) fn fresh_id_bits() -> u128 {
    uuid::Uuid::new_v4().as_u128()
}

/// A fresh random identifier, written with hyphens: 36 characters, the
/// digits of some 128 bits.
pub(crate) fn fresh_id() -> (out: String)
    ensures
        out@.len() == 36,
        exists|bits: u128| out@ == #[trigger] hyphenated(bits),
{
    let bits = fresh_id_bits();
    format_id(bits)
}

} // verus!
