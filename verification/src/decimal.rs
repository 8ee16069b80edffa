//! Fixed-point decimal numbers.
//!
//! Prices, measurements and confidences are held as whole numbers of
//! millionths, so that every rule about them is exact.

use crate::text::{decimal_chars, decimal_spec, digit_char, push_all, string_of};
use vstd::prelude::*;

verus! {

/// Millionths in one unit.
pub const MICROS_PER_UNIT: i64 = 1_000_000;

/// A decimal number with six fractional digits: `micros` millionths.
#[derive(Clone, Copy, Debug, PartialEq, Eq, Structural)]
pub struct Decimal {
    pub micros: i64,
}

/// `a * num / den` rounded toward zero, for a non-negative `a`.
pub open spec fn scaled_spec(a: int, num: int, den: int) -> int {
    (a * num) / den
}

/// `a` rounded to the nearest multiple of `step`, halves upward, for a non-negative `a`.
pub open spec fn rounded_spec(a: int, step: int) -> int {
    ((a + step / 2) / step) * step
}

/// The numeral of a non-negative number of millionths with exactly two
/// fractional digits, halves rounded upward.
pub open spec fn fixed2_unsigned_spec(micros: nat) -> Seq<char> {
    let cents = (micros + 5_000) / 10_000;
    let frac = cents % 100;
    decimal_spec(cents / 100) + seq!['.'] + decimal_spec(frac / 10) + decimal_spec(frac % 10)
}

/// The numeral of `micros` millionths with exactly two fractional digits,
/// with a minus sign in front of a negative number.
pub open spec fn fixed2_spec(micros: int) -> Seq<char> {
    if micros < 0 {
        seq!['-'] + fixed2_unsigned_spec((-micros) as nat)
    } else {
        fixed2_unsigned_spec(micros as nat)
    }
}

/// `frac` without its trailing zeros, and the number of digits left of `width`.
pub open spec fn strip_zeros(frac: nat, width: nat) -> (nat, nat)
    decreases width,
{
    if width > 0 && frac % 10 == 0 {
        strip_zeros(frac / 10, (width - 1) as nat)
    } else {
        (frac, width)
    }
}

/// The last `width` decimal digits of `n`, with leading zeros.
pub open spec fn padded_spec(n: nat, width: nat) -> Seq<char>
    decreases width,
{
    if width == 0 {
        Seq::<char>::empty()
    } else {
        padded_spec(n / 10, (width - 1) as nat).push(digit_char(n % 10))
    }
}

/// The shortest numeral of a non-negative number of millionths: the whole
/// part, and the fractional digits up to the last that is not zero.
pub open spec fn plain_unsigned_spec(micros: nat) -> Seq<char> {
    let whole = micros / 1_000_000;
    let frac = micros % 1_000_000;
    if frac == 0 {
        decimal_spec(whole)
    } else {
        let cut = strip_zeros(frac, 6);
        decimal_spec(whole) + seq!['.'] + padded_spec(cut.0, cut.1)
    }
}

/// The shortest numeral of `micros` millionths, with a minus sign in front
/// of a negative number.
pub open spec fn plain_spec(micros: int) -> Seq<char> {
    if micros < 0 {
        seq!['-'] + plain_unsigned_spec((-micros) as nat)
    } else {
        plain_unsigned_spec(micros as nat)
    }
}

fn padded_chars(n: u64, width: u8) -> (out: Vec<char>)
    ensures
        out@ == padded_spec(n as nat, width as nat),
    decreases width,
{
    if width == 0 {
        Vec::new()
    } else {
        let mut out = padded_chars(n / 10, width - 1);
        let d: u8 = 48 + ((n % 10) as u8);
        out.push(d as char);
        out
    }
}

fn strip_trailing_zeros(frac: u64, width: u8) -> (out: (u64, u8))
    ensures
        (out.0 as nat, out.1 as nat) == strip_zeros(frac as nat, width as nat),
    decreases width,
{
    if width > 0 && frac % 10 == 0 {
        strip_trailing_zeros(frac / 10, width - 1)
    } else {
        (frac, width)
    }
}

impl Decimal {
    /// The number `units`, which has no fractional part.
    pub fn from_units(units: i32) -> (out: Decimal)
        ensures
            out.micros == units * MICROS_PER_UNIT,
    {
        let wide: i64 = units as i64;
        Decimal { micros: wide * MICROS_PER_UNIT }
    }

    /// The number of `hundredths` hundredths.
    pub fn from_hundredths(hundredths: i32) -> (out: Decimal)
        ensures
            out.micros == hundredths * 10_000,
    {
        let wide: i64 = hundredths as i64;
        Decimal { micros: wide * 10_000 }
    }

    /// Whether the number is above zero.
    pub fn is_positive(&self) -> (r: bool)
        ensures
            r == (self.micros > 0),
    {
        self.micros > 0
    }

    /// `self * num / den` rounded toward zero; `None` when the number is not
    /// positive, `den` is zero or the result does not fit.
    pub fn scaled(&self, num: u64, den: u64) -> (out: Option<Decimal>)
        ensures
            out is Some <==> self.micros > 0 && den > 0 && scaled_spec(
                self.micros as int,
                num as int,
                den as int,
            ) <= i64::MAX,
            out is Some ==> out->0.micros == scaled_spec(
                self.micros as int,
                num as int,
                den as int,
            ),
    {
        if self.micros <= 0 || den == 0 {
            return None;
        }
        let a: u128 = self.micros as u128;
        let n: u128 = num as u128;
        assert(a * n <= 0x7fff_ffff_ffff_ffff * 0xffff_ffff_ffff_ffff) by (nonlinear_arith)
            requires
                0 <= a <= 0x7fff_ffff_ffff_ffff,
                0 <= n <= 0xffff_ffff_ffff_ffff,
        ;
        let product: u128 = a * n;
        let q: u128 = product / (den as u128);
        if q > 0x7fff_ffff_ffff_ffff {
            None
        } else {
            Some(Decimal { micros: q as i64 })
        }
    }

    /// The number rounded to the nearest multiple of `step` millionths, halves
    /// upward; `None` when the number is negative, `step` is not positive or
    /// the result does not fit.
    pub fn rounded(&self, step: i64) -> (out: Option<Decimal>)
        ensures
            out is Some <==> self.micros >= 0 && step > 0 && rounded_spec(
                self.micros as int,
                step as int,
            ) <= i64::MAX,
            out is Some ==> out->0.micros == rounded_spec(self.micros as int, step as int),
    {
        if self.micros < 0 || step <= 0 {
            return None;
        }
        let a: u128 = self.micros as u128;
        let s: u128 = step as u128;
        let k: u128 = (a + s / 2) / s;
        assert(k * s <= a + s / 2) by (nonlinear_arith)
            requires
                k == (a + s / 2) / (s as int),
                s > 0,
        ;
        let r: u128 = k * s;
        if r > 0x7fff_ffff_ffff_ffff {
            None
        } else {
            Some(Decimal { micros: r as i64 })
        }
    }

    /// The larger of the number and `floor`.
    pub fn at_least(&self, floor: Decimal) -> (out: Decimal)
        ensures
            out.micros == if self.micros < floor.micros {
                floor.micros
            } else {
                self.micros
            },
    {
        if self.micros < floor.micros {
            floor
        } else {
            *self
        }
    }

    /// The numeral with exactly two fractional digits, halves rounded away from zero.
    pub fn format_fixed2(&self) -> (out: String)
        ensures
            out@ == fixed2_spec(self.micros as int),
    {
        let negative = self.micros < 0;
        let magnitude: u64 = if negative {
            if self.micros == i64::MIN {
                0x8000_0000_0000_0000
            } else {
                (-self.micros) as u64
            }
        } else {
            self.micros as u64
        };
        let cents: u64 = (magnitude + 5_000) / 10_000;
        let frac: u64 = cents % 100;
        let mut out: Vec<char> = Vec::new();
        if negative {
            out.push('-');
        }
        let ghost sign = out@;
        let whole = decimal_chars(cents / 100);
        push_all(&mut out, &whole);
        out.push('.');
        let tens = decimal_chars(frac / 10);
        push_all(&mut out, &tens);
        let ones = decimal_chars(frac % 10);
        push_all(&mut out, &ones);
        proof {
            let body = fixed2_unsigned_spec(magnitude as nat);
            assert(out@ =~= sign + body);
            if negative {
                assert(sign =~= seq!['-']);
            } else {
                assert(sign + body =~= body);
            }
        }
        string_of(&out)
    }

    /// The magnitude of the number.
    fn magnitude(&self) -> (m: u64)
        ensures
            m == if self.micros < 0 {
                -self.micros
            } else {
                self.micros as int
            },
    {
        if self.micros < 0 {
            if self.micros == i64::MIN {
                0x8000_0000_0000_0000
            } else {
                (-self.micros) as u64
            }
        } else {
            self.micros as u64
        }
    }

    /// The shortest numeral of the number.
    pub fn format_plain(&self) -> (out: String)
        ensures
            out@ == plain_spec(self.micros as int),
    {
        let negative = self.micros < 0;
        let magnitude = self.magnitude();
        let whole: u64 = magnitude / 1_000_000;
        let frac: u64 = magnitude % 1_000_000;
        let mut out: Vec<char> = Vec::new();
        if negative {
            out.push('-');
        }
        let ghost sign = out@;
        let digits = decimal_chars(whole);
        push_all(&mut out, &digits);
        if frac != 0 {
            out.push('.');
            let cut = strip_trailing_zeros(frac, 6);
            let tail = padded_chars(cut.0, cut.1);
            push_all(&mut out, &tail);
        }
        proof {
            let body = plain_unsigned_spec(magnitude as nat);
            assert(out@ =~= sign + body);
            if negative {
                assert(sign =~= seq!['-']);
            } else {
                assert(sign + body =~= body);
            }
        }
        string_of(&out)
    }
}

} // verus!
