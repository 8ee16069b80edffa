//! Settings as the environment words them, read into plain values.

use crate::text::{chars_of, lowercase_of, same_text, trim_spec, trimmed_lower};
use vstd::prelude::*;

verus! {

/// Whether `c` is a decimal digit.
pub open spec fn is_digit(c: char) -> bool {
    '0' <= c && c <= '9'
}

/// The number that a sequence of decimal digits writes; nothing when a
/// character is no digit.
pub open spec fn digits_value(s: Seq<char>) -> Option<nat>
    decreases s.len(),
{
    if s.len() == 0 {
        Some(0nat)
    } else {
        match digits_value(s.drop_last()) {
            Some(v) => if is_digit(s.last()) {
                Some((v * 10 + (s.last() as u32 - 48) as nat) as nat)
            } else {
                None
            },
            None => None,
        }
    }
}

/// The number that `s` writes: decimal digits, at least one, after an
/// optional plus sign; nothing for any other text.
pub open spec fn unsigned_spec(s: Seq<char>) -> Option<nat> {
    let body = if s.len() > 0 && s[0] == '+' {
        s.drop_first()
    } else {
        s
    };
    if body.len() == 0 {
        None
    } else {
        digits_value(body)
    }
}

proof fn lemma_digits_prefix(s: Seq<char>, i: int)
    requires
        0 <= i <= s.len(),
        digits_value(s) is Some,
    ensures
        digits_value(s.take(i)) is Some,
        digits_value(s.take(i))->0 <= digits_value(s)->0,
    decreases s.len(),
{
    if i == s.len() {
        assert(s.take(i) =~= s);
    } else {
        assert(s.drop_last().take(i) =~= s.take(i));
        lemma_digits_prefix(s.drop_last(), i);
    }
}

/// The number that `s` writes, when it writes one that fits.
pub fn parse_unsigned(s: &str) -> (out: Option<u64>)
    ensures
        match out {
            Some(v) => unsigned_spec(s@) == Some(v as nat),
            None => unsigned_spec(s@) is None || unsigned_spec(s@)->0 > u64::MAX,
        },
{
    let chars = chars_of(s);
    let start: usize = if chars.len() > 0 && chars[0] == '+' {
        1
    } else {
        0
    };
    if start >= chars.len() {
        return None;
    }
    let ghost body = chars@.subrange(start as int, chars@.len() as int);
    assert(body =~= if start == 1 {
        chars@.drop_first()
    } else {
        chars@
    });
    let mut value: u64 = 0;
    let mut i: usize = start;
    assert(body.take(0) =~= Seq::<char>::empty());
    assert(unsigned_spec(s@) == digits_value(body));
    while i < chars.len()
        invariant
            start <= i <= chars@.len(),
            unsigned_spec(s@) == digits_value(body),
            body == chars@.subrange(start as int, chars@.len() as int),
            digits_value(body.take(i - start)) == Some(value as nat),
        decreases chars@.len() - i,
    {
        let c = chars[i];
        let ghost part = body.take(i - start + 1);
        proof {
            assert(part.drop_last() =~= body.take(i - start));
            assert(part.last() == c);
        }
        if !(c >= '0' && c <= '9') {
            proof {
                if digits_value(body) is Some {
                    lemma_digits_prefix(body, i - start + 1);
                }
            }
            return None;
        }
        let d: u64 = (c as u32 - 48) as u64;
        if value > (u64::MAX - d) / 10 {
            proof {
                if digits_value(body) is Some {
                    lemma_digits_prefix(body, i - start + 1);
                }
            }
            return None;
        }
        value = value * 10 + d;
        i += 1;
    }
    assert(body.take(body.len() as int) =~= body);
    Some(value)
}

/// The setting that `raw` gives: the number it writes when that is at
/// least `least`, else `fallback`.
pub open spec fn setting_spec(raw: Option<Seq<char>>, least: nat, fallback: nat) -> nat {
    match raw {
        Some(text) => match unsigned_spec(text) {
            Some(v) => if v >= least && v <= u64::MAX {
                v
            } else {
                fallback
            },
            None => fallback,
        },
        None => fallback,
    }
}

/// The setting that `raw` gives: the number it writes when that is at
/// least `least`, else `fallback`.
pub fn setting_or(raw: Option<&str>, least: u64, fallback: u64) -> (out: u64)
    ensures
        out == setting_spec(
            match raw {
                Some(r) => Some(r@),
                None => None,
            },
            least as nat,
            fallback as nat,
        ),
{
    match raw {
        Some(text) => match parse_unsigned(text) {
            Some(v) => if v >= least {
                v
            } else {
                fallback
            },
            None => fallback,
        },
        None => fallback,
    }
}

/// The largest number of images of one listing: at least one, six unless set.
pub fn max_images_from(raw: Option<&str>) -> (out: u64)
    ensures
        out == setting_spec(
            match raw {
                Some(r) => Some(r@),
                None => None,
            },
            1,
            6,
        ),
{
    setting_or(raw, 1, 6)
}

/// The number of jobs that may wait: at least one, 64 unless set.
pub fn queue_capacity_from(raw: Option<&str>) -> (out: u64)
    ensures
        out == setting_spec(
            match raw {
                Some(r) => Some(r@),
                None => None,
            },
            1,
            64,
        ),
{
    setting_or(raw, 1, 64)
}

/// The largest body of a request in bytes: at least one, 256 KiB unless set.
pub fn body_limit_from(raw: Option<&str>) -> (out: u64)
    ensures
        out == setting_spec(
            match raw {
                Some(r) => Some(r@),
                None => None,
            },
            1,
            262144,
        ),
{
    setting_or(raw, 1, 262144)
}

/// The seconds for which a stored answer is kept: 3600 unless set.
pub fn idempotency_ttl_from(raw: Option<&str>) -> (out: u64)
    ensures
        out == setting_spec(
            match raw {
                Some(r) => Some(r@),
                None => None,
            },
            0,
            3600,
        ),
{
    setting_or(raw, 0, 3600)
}

/// The seconds after which an outbound call is given up: 15 unless set.
pub fn http_timeout_from(raw: Option<&str>) -> (out: u64)
    ensures
        out == setting_spec(
            match raw {
                Some(r) => Some(r@),
                None => None,
            },
            0,
            15,
        ),
{
    setting_or(raw, 0, 15)
}

/// The seconds after which connecting is given up: 5 unless set.
pub fn connect_timeout_from(raw: Option<&str>) -> (out: u64)
    ensures
        out == setting_spec(
            match raw {
                Some(r) => Some(r@),
                None => None,
            },
            0,
            5,
        ),
{
    setting_or(raw, 0, 5)
}

/// The port to listen on: the number that `raw` writes when it is a port, else 8000.
pub fn port_from(raw: Option<&str>) -> (out: u16)
    ensures
        out == match raw {
            Some(text) => match unsigned_spec(text@) {
                Some(v) => if v <= 65535 {
                    v as u16
                } else {
                    8000u16
                },
                None => 8000u16,
            },
            None => 8000u16,
        },
{
    match raw {
        Some(text) => match parse_unsigned(text) {
            Some(v) => if v <= 65535 {
                v as u16
            } else {
                8000
            },
            None => 8000,
        },
        None => 8000,
    }
}

/// Whether a word says yes: `1`, `true`, `yes` or `on`, in any letter case
/// and with white space around it.
pub open spec fn flag_spec(raw: Option<Seq<char>>) -> bool {
    match raw {
        Some(text) => {
            let w = lowercase_of(trim_spec(text));
            w == "1"@ || w == "true"@ || w == "yes"@ || w == "on"@
        },
        None => false,
    }
}

/// Whether the setting `raw` says yes.
pub fn flag_from(raw: Option<&str>) -> (out: bool)
    ensures
        out == flag_spec(
            match raw {
                Some(r) => Some(r@),
                None => None,
            },
        ),
{
    match raw {
        Some(text) => {
            let w = trimmed_lower(text);
            same_text(w.as_str(), "1") || same_text(w.as_str(), "true") || same_text(
                w.as_str(),
                "yes",
            ) || same_text(w.as_str(), "on")
        },
        None => false,
    }
}

} // verus!
