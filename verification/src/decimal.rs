//! Exact decimal numbers: `mantissa * 10^-scale`, as the readings of the
//! sensors are sent and stored.
use vstd::prelude::*;

verus! {

/// `10^n`.
pub open spec fn pow10(n: nat) -> int
    decreases n,
{
    if n == 0 {
        1
    } else {
        10 * pow10((n - 1) as nat)
    }
}

/// A decimal number `mantissa * 10^-scale`.
#[derive(Debug, PartialEq, Eq, Structural, Clone, Copy)]
pub struct Decimal {
    pub mantissa: i128,
    pub scale: u32,
}

impl Decimal {
    /// The value times `10^s`, for `s` at least the scale.
    pub open spec fn scaled_to(self, s: nat) -> int {
        self.mantissa * pow10((s - self.scale) as nat)
    }

    /// The value is at least the integer `t`.
    pub open spec fn spec_ge_int(self, t: int) -> bool {
        self.mantissa >= t * pow10(self.scale as nat)
    }

    /// The value is at most the integer `t`.
    pub open spec fn spec_le_int(self, t: int) -> bool {
        self.mantissa <= t * pow10(self.scale as nat)
    }

    /// The larger of the two scales, at which a difference is taken.
    pub open spec fn common_scale(self, other: Decimal) -> u32 {
        if self.scale >= other.scale {
            self.scale
        } else {
            other.scale
        }
    }

}

/// The exact difference `minuend - subtrahend` of two decimals, as
/// `BigDecimal` subtraction gives it: its digits at the larger of the two
/// scales. It is kept as its two operands, because those digits need not
/// fit an `i128`.
#[derive(Debug, PartialEq, Eq, Structural, Clone, Copy)]
pub struct DecimalDifference {
    pub minuend: Decimal,
    pub subtrahend: Decimal,
}

impl DecimalDifference {
    /// The scale of the difference: the larger of the two scales.
    pub open spec fn scale(self) -> u32 {
        self.minuend.common_scale(self.subtrahend)
    }

    /// The digits of the difference at its scale.
    pub open spec fn digits(self) -> int {
        self.minuend.scaled_to(self.scale() as nat) - self.subtrahend.scaled_to(
            self.scale() as nat,
        )
    }

    /// The difference is at least the integer `t`.
    pub open spec fn spec_ge_int(self, t: int) -> bool {
        self.digits() >= t * pow10(self.scale() as nat)
    }

    /// The difference is at most the integer `t`.
    pub open spec fn spec_le_int(self, t: int) -> bool {
        self.digits() <= t * pow10(self.scale() as nat)
    }
}

pub proof fn lemma_pow10_positive(n: nat)
    ensures
        pow10(n) >= 1,
    decreases n,
{
    if n > 0 {
        lemma_pow10_positive((n - 1) as nat);
    }
}

pub proof fn lemma_pow10_monotone(a: nat, b: nat)
    requires
        a <= b,
    ensures
        pow10(a) <= pow10(b),
    decreases b,
{
    if a < b {
        lemma_pow10_monotone(a, (b - 1) as nat);
        lemma_pow10_positive((b - 1) as nat);
    }
}

pub proof fn lemma_pow10_38_39()
    ensures
        pow10(38) == 100_000_000_000_000_000_000_000_000_000_000_000_000,
        pow10(39) == 1_000_000_000_000_000_000_000_000_000_000_000_000_000,
{
    reveal_with_fuel(pow10, 40);
}

/// Largest power of ten an `i128` holds: `10^38`.
pub const MAX_POW10_EXP: u32 = 38;

/// `10^n` for `n <= 38`.
pub fn pow10_i128(n: u32) -> (r: i128)
    requires
        n <= MAX_POW10_EXP,
    ensures
        r == pow10(n as nat),
        1 <= r,
{
    let mut r: i128 = 1;
    let mut i: u32 = 0;
    while i < n
        invariant
            i <= n <= MAX_POW10_EXP,
            r == pow10(i as nat),
            1 <= r,
        decreases n - i,
    {
        proof {
            lemma_pow10_monotone((i + 1) as nat, 38);
            lemma_pow10_38_39();
        }
        r = r * 10;
        i = i + 1;
    }
    r
}

/// `m >= t * 10^s` for every `i128` mantissa, `i32` bound and scale.
fn mantissa_ge(m: i128, t: i32, s: u32) -> (r: bool)
    ensures
        r == (m >= t * pow10(s as nat)),
{
    if s > MAX_POW10_EXP {
        proof {
            lemma_pow10_monotone(39, s as nat);
            lemma_pow10_38_39();
            let p = pow10(s as nat);
            assert(t > 0 ==> t * p >= p) by (nonlinear_arith)
                requires
                    p >= 1,
            ;
            assert(t == 0 ==> t * p == 0);
            assert(t < 0 ==> t * p <= -p) by (nonlinear_arith)
                requires
                    p >= 1,
            ;
        }
        if t > 0 {
            false
        } else if t == 0 {
            m >= 0
        } else {
            true
        }
    } else {
        let p = pow10_i128(s);
        proof {
            assert(t >= 0 ==> t * p >= 0) by (nonlinear_arith)
                requires
                    p >= 1,
            ;
            assert(t < 0 ==> t * p < 0) by (nonlinear_arith)
                requires
                    p >= 1,
            ;
        }
        match (t as i128).checked_mul(p) {
            Some(v) => m >= v,
            None => t < 0,
        }
    }
}

/// `m <= t * 10^s` for every `i128` mantissa, `i32` bound and scale.
fn mantissa_le(m: i128, t: i32, s: u32) -> (r: bool)
    ensures
        r == (m <= t * pow10(s as nat)),
{
    if s > MAX_POW10_EXP {
        proof {
            lemma_pow10_monotone(39, s as nat);
            lemma_pow10_38_39();
            let p = pow10(s as nat);
            assert(t > 0 ==> t * p >= p) by (nonlinear_arith)
                requires
                    p >= 1,
            ;
            assert(t == 0 ==> t * p == 0);
            assert(t < 0 ==> t * p <= -p) by (nonlinear_arith)
                requires
                    p >= 1,
            ;
        }
        if t > 0 {
            true
        } else if t == 0 {
            m <= 0
        } else {
            false
        }
    } else {
        let p = pow10_i128(s);
        proof {
            assert(t >= 0 ==> t * p >= 0) by (nonlinear_arith)
                requires
                    p >= 1,
            ;
            assert(t < 0 ==> t * p < 0) by (nonlinear_arith)
                requires
                    p >= 1,
            ;
        }
        match (t as i128).checked_mul(p) {
            Some(v) => m <= v,
            None => t > 0,
        }
    }
}

impl Decimal {
    /// Whether the value is at least `t`.
    pub fn ge_int(&self, t: i32) -> (r: bool)
        ensures
            r == self.spec_ge_int(t as int),
    {
        mantissa_ge(self.mantissa, t, self.scale)
    }

    /// Whether the value is at most `t`.
    pub fn le_int(&self, t: i32) -> (r: bool)
        ensures
            r == self.spec_le_int(t as int),
    {
        mantissa_le(self.mantissa, t, self.scale)
    }
}

/// The text `bigdecimal::BigDecimal` displays for `mantissa * 10^-scale`.
pub uninterp spec fn bigdecimal_display(mantissa: int, scale: int) -> Seq<char>;

/// Displays the number as `bigdecimal::BigDecimal` does (`Display`).
#[verifier::external_body]
pub(crate) fn decimal_to_string(d: &Decimal) -> (r: String)
    ensures
        r@ == bigdecimal_display(d.mantissa as int, d.scale as int),
{
    bigdecimal::BigDecimal::new(bigdecimal::num_bigint::BigInt::from(d.mantissa), d.scale as i64)
        .to_string()
}

/// `(a - b) >= BigDecimal::from(t)` for `a`, `b` the two operands as
/// `BigDecimal`s: exact subtraction and comparison by value.
#[verifier::external_body]
pub(crate) fn difference_at_least(d: &DecimalDifference, t: i32) -> (r: bool)
    ensures
        r == d.spec_ge_int(t as int),
{
    let a = bigdecimal::BigDecimal::new(bigdecimal::num_bigint::BigInt::from(d.minuend.mantissa), d.minuend.scale as i64);
    let b = bigdecimal::BigDecimal::new(bigdecimal::num_bigint::BigInt::from(d.subtrahend.mantissa), d.subtrahend.scale as i64);
    &a - &b >= bigdecimal::BigDecimal::from(t)
}

/// `(a - b) <= BigDecimal::from(t)` for `a`, `b` the two operands as
/// `BigDecimal`s: exact subtraction and comparison by value.
#[verifier::external_body]
pub(crate) fn difference_at_most(d: &DecimalDifference, t: i32) -> (r: bool)
    ensures
        r == d.spec_le_int(t as int),
{
    let a = bigdecimal::BigDecimal::new(bigdecimal::num_bigint::BigInt::from(d.minuend.mantissa), d.minuend.scale as i64);
    let b = bigdecimal::BigDecimal::new(bigdecimal::num_bigint::BigInt::from(d.subtrahend.mantissa), d.subtrahend.scale as i64);
    &a - &b <= bigdecimal::BigDecimal::from(t)
}

/// Displays `a - b` as `BigDecimal` does. `&a - &b` brings both operands to
/// the larger scale and subtracts their digits, without normalising, so the
/// text is that of the difference's digits at that scale.
#[verifier::external_body]
pub(crate) fn difference_to_string(d: &DecimalDifference) -> (r: String)
    ensures
        r@ == bigdecimal_display(d.digits(), d.scale() as int),
{
    let a = bigdecimal::BigDecimal::new(bigdecimal::num_bigint::BigInt::from(d.minuend.mantissa), d.minuend.scale as i64);
    let b = bigdecimal::BigDecimal::new(bigdecimal::num_bigint::BigInt::from(d.subtrahend.mantissa), d.subtrahend.scale as i64);
    (&a - &b).to_string()
}

} // verus!
