//! Monetary amounts as the `rust_decimal` crate represents them: a 96-bit
//! magnitude, a sign and a scale (the number of digits after the point).

use vstd::prelude::*;

verus! {

/// The largest magnitude a decimal can hold (2^96 - 1).
pub const MAX_MAGNITUDE: u128 = 0xFFFF_FFFF_FFFF_FFFF_FFFF_FFFFu128;

/// The largest scale a decimal can hold.
pub const MAX_SCALE: u32 = 28u32;

/// Magnitude and scale that a decimal can hold.
pub open spec fn valid_decimal(magnitude: u128, scale: u32) -> bool {
    magnitude <= MAX_MAGNITUDE && scale <= MAX_SCALE
}

/// The decimal digits of `n`, most significant first; none for zero.
pub open spec fn digits_of(n: nat) -> Seq<char>
    decreases n,
{
    if n == 0 {
        Seq::empty()
    } else {
        digits_of(n / 10).push(((n % 10) + 48) as char)
    }
}

/// `s` with `'0'`s put in front until it is at least `k` characters long.
pub open spec fn zero_padded(s: Seq<char>, k: nat) -> Seq<char> {
    if s.len() < k {
        Seq::new((k - s.len()) as nat, |i: int| '0') + s
    } else {
        s
    }
}

/// What `Display` of `rust_decimal::Decimal` writes for the decimal with the
/// given parts: the digits of the magnitude, padded with leading zeros to at
/// least `scale` digits; the last `scale` of them after a point (no point
/// when the scale is zero) and the rest, or `0` when there are none, before
/// it; and a leading `-` whenever the sign is negative, zero included.
pub open spec fn decimal_text(magnitude: u128, negative: bool, scale: u32) -> Seq<char> {
    let digits = zero_padded(digits_of(magnitude as nat), scale as nat);
    let whole = digits.take(digits.len() - scale);
    let sign = if negative { seq!['-'] } else { Seq::empty() };
    let before = if whole.len() == 0 { seq!['0'] } else { whole };
    if scale == 0 {
        sign + before
    } else {
        sign + before + seq!['.'] + digits.skip(digits.len() - scale)
    }
}

/// What `rust_decimal::Decimal::checked_add` gives for two decimals with the
/// given parts: the parts of the sum, or `None` when it overflows.
pub uninterp spec fn decimal_sum(
    a_magnitude: u128,
    a_negative: bool,
    a_scale: u32,
    b_magnitude: u128,
    b_negative: bool,
    b_scale: u32,
) -> Option<(u128, bool, u32)>;

/// Calls `Display` of `rust_decimal::Decimal` (through `to_string`) on the
/// decimal with the given parts, built with `from_i128_with_scale`, which
/// panics outside the valid range, and `set_sign_negative`. The text is the
/// one `decimal_text` describes.
#[verifier::external_body]
fn format_decimal(magnitude: u128, negative: bool, scale: u32) -> (r: String)
    requires
        valid_decimal(magnitude, scale),
    ensures
        r@ == decimal_text(magnitude, negative, scale),
{
    let mut d = rust_decimal::Decimal::from_i128_with_scale(magnitude as i128, scale);
    d.set_sign_negative(negative);
    d.to_string()
}

/// Calls `rust_decimal::Decimal::checked_add` on the decimals with the given
/// parts. The sum (rescaled and rounded as the crate does) is named by
/// `decimal_sum`; every sum it returns is itself a valid decimal, since the
/// type holds no other.
#[verifier::external_body]
fn add_decimals(
    a_magnitude: u128,
    a_negative: bool,
    a_scale: u32,
    b_magnitude: u128,
    b_negative: bool,
    b_scale: u32,
) -> (r: Option<(u128, bool, u32)>)
    requires
        valid_decimal(a_magnitude, a_scale),
        valid_decimal(b_magnitude, b_scale),
    ensures
        r == decimal_sum(a_magnitude, a_negative, a_scale, b_magnitude, b_negative, b_scale),
        r matches Some(s) ==> valid_decimal(s.0, s.2),
{
    let mut a = rust_decimal::Decimal::from_i128_with_scale(a_magnitude as i128, a_scale);
    a.set_sign_negative(a_negative);
    let mut b = rust_decimal::Decimal::from_i128_with_scale(b_magnitude as i128, b_scale);
    b.set_sign_negative(b_negative);
    match a.checked_add(b) {
        Some(d) => Some((d.mantissa().unsigned_abs(), d.is_sign_negative(), d.scale())),
        None => None,
    }
}

/// A decimal amount of money.
#[derive(Clone, Copy, Debug, PartialEq, Eq, Structural)]
pub struct Money {
    magnitude: u128,
    negative: bool,
    scale: u32,
}

impl Money {
    #[verifier::type_invariant]
    spec fn inv(self) -> bool {
        valid_decimal(self.magnitude, self.scale)
    }

    /// The digits of the amount, without sign and decimal point.
    pub closed spec fn spec_magnitude(self) -> u128 {
        self.magnitude
    }

    /// Whether the amount carries a negative sign.
    pub closed spec fn spec_negative(self) -> bool {
        self.negative
    }

    /// How many of the digits stand after the decimal point.
    pub closed spec fn spec_scale(self) -> u32 {
        self.scale
    }

    /// The sum of two amounts, as `Decimal::checked_add` computes it.
    pub open spec fn sum(a: Money, b: Money) -> Option<(u128, bool, u32)> {
        decimal_sum(
            a.spec_magnitude(),
            a.spec_negative(),
            a.spec_scale(),
            b.spec_magnitude(),
            b.spec_negative(),
            b.spec_scale(),
        )
    }

    /// The amount with the given parts, when they are within range.
    pub fn new(magnitude: u128, negative: bool, scale: u32) -> (r: Option<Money>)
        ensures
            r is Some <==> valid_decimal(magnitude, scale),
            r matches Some(m) ==> m.spec_magnitude() == magnitude && m.spec_negative() == negative
                && m.spec_scale() == scale,
    {
        if magnitude <= MAX_MAGNITUDE && scale <= MAX_SCALE {
            Some(Money { magnitude, negative, scale })
        } else {
            None
        }
    }

    /// Zero as `Decimal::ZERO` holds it: magnitude 0, positive, scale 0.
    pub closed spec fn zero_value() -> Money {
        Money { magnitude: 0, negative: false, scale: 0 }
    }

    /// The parts of zero.
    pub proof fn lemma_zero_parts()
        ensures
            Money::zero_value().spec_magnitude() == 0,
            !Money::zero_value().spec_negative(),
            Money::zero_value().spec_scale() == 0,
    {
    }

    /// Zero (`Decimal::ZERO`).
    pub fn zero() -> (r: Money)
        ensures
            r == Money::zero_value(),
    {
        Money { magnitude: 0, negative: false, scale: 0 }
    }

    /// The digits of the amount, without sign and decimal point.
    pub fn magnitude(&self) -> (r: u128)
        ensures
            r == self.spec_magnitude(),
    {
        self.magnitude
    }

    /// Whether the amount carries a negative sign.
    pub fn is_negative(&self) -> (r: bool)
        ensures
            r == self.spec_negative(),
    {
        self.negative
    }

    /// How many of the digits stand after the decimal point.
    pub fn scale(&self) -> (r: u32)
        ensures
            r == self.spec_scale(),
    {
        self.scale
    }

    /// The sum of two amounts, or `None` where `Decimal` addition overflows.
    pub fn checked_add(a: Money, b: Money) -> (r: Option<Money>)
        ensures
            match Money::sum(a, b) {
                Some(s) => r matches Some(m) && m.spec_magnitude() == s.0 && m.spec_negative()
                    == s.1 && m.spec_scale() == s.2,
                None => r is None,
            },
    {
        proof {
            use_type_invariant(&a);
            use_type_invariant(&b);
        }
        match add_decimals(a.magnitude, a.negative, a.scale, b.magnitude, b.negative, b.scale) {
            Some((magnitude, negative, scale)) => Some(Money { magnitude, negative, scale }),
            None => None,
        }
    }

    /// The amount as `Decimal` writes it.
    pub fn to_string(&self) -> (r: String)
        ensures
            r@ == decimal_text(self.spec_magnitude(), self.spec_negative(), self.spec_scale()),
    {
        proof {
            use_type_invariant(self);
        }
        format_decimal(self.magnitude, self.negative, self.scale)
    }
}

} // verus!
