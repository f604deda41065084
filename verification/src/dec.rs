//! Exact decimal amounts, for money, quantities, rates and percentages.
//!
//! A [`Dec`] is the value `mantissa / 10^scale`, with the bounds of `rust_decimal::Decimal`:
//! a mantissa of at most 96 bits and a scale of at most 28. The arithmetic itself is done by
//! `rust_decimal`, through the wrappers below; what this module states of it is what that crate
//! computes exactly, and the rest is named.
use rust_decimal::Decimal;
use vstd::prelude::*;

verus! {

/// The largest mantissa a decimal can hold: `2^96 - 1`.
pub const MAX_MANTISSA: i128 = 79228162514264337593543950335i128;

/// The largest scale a decimal can hold.
pub const MAX_SCALE: u32 = 28u32;

/// `10^n`.
pub open spec fn pow10(n: nat) -> int
    decreases n,
{
    if n == 0 {
        1
    } else {
        10 * pow10((n - 1) as nat)
    }
}

/// `10^n` is positive.
pub proof fn lemma_pow10_positive(n: nat)
    ensures
        pow10(n) >= 1,
    decreases n,
{
    if n > 0 {
        lemma_pow10_positive((n - 1) as nat);
    }
}

/// `10^(a + b) == 10^a * 10^b`.
pub proof fn lemma_pow10_add(a: nat, b: nat)
    ensures
        pow10(a + b) == pow10(a) * pow10(b),
    decreases a,
{
    if a > 0 {
        lemma_pow10_add((a - 1) as nat, b);
        assert(pow10(a + b) == 10 * pow10((a - 1 + b) as nat));
        assert(pow10(a + b) == 10 * (pow10((a - 1) as nat) * pow10(b)));
        assert(10 * (pow10((a - 1) as nat) * pow10(b)) == (10 * pow10((a - 1) as nat)) * pow10(b))
            by (nonlinear_arith);
    }
}

/// `10^a <= 10^b` for `a <= b`.
pub proof fn lemma_pow10_monotone(a: nat, b: nat)
    requires
        a <= b,
    ensures
        pow10(a) <= pow10(b),
    decreases b,
{
    if a < b {
        lemma_pow10_monotone(a, (b - 1) as nat);
        lemma_pow10_positive((b - 1) as nat);
    }
}

/// `p` divides `n` exactly when it divides `-n`.
pub proof fn lemma_negated_divides(n: int, p: int)
    requires
        p >= 1,
    ensures
        (n % p == 0) == ((-n) % p == 0),
{
    if n % p == 0 {
        assert((-n) % p == 0) by (nonlinear_arith)
            requires
                n % p == 0,
                p >= 1,
        {
            assert(n == p * (n / p));
            assert(-n == p * (-(n / p)));
        }
    }
    if (-n) % p == 0 {
        assert(n % p == 0) by (nonlinear_arith)
            requires
                (-n) % p == 0,
                p >= 1,
        {
            assert(-n == p * ((-n) / p));
            assert(n == p * (-((-n) / p)));
        }
    }
}

/// An exact decimal number: `mantissa / 10^scale`.
#[derive(Clone, Copy, Debug)]
pub struct Dec {
    mantissa: i128,
    scale: u32,
}

/// The result of `rust_decimal`'s `checked_add` on two decimals.
pub uninterp spec fn decimal_sum(a: Dec, b: Dec) -> Option<Dec>;

/// The result of `rust_decimal`'s `checked_sub` on two decimals.
pub uninterp spec fn decimal_difference(a: Dec, b: Dec) -> Option<Dec>;

/// The result of `rust_decimal`'s `checked_mul` on two decimals.
pub uninterp spec fn decimal_product(a: Dec, b: Dec) -> Option<Dec>;

/// The result of `rust_decimal`'s `checked_div` on two decimals.
pub uninterp spec fn decimal_quotient(a: Dec, b: Dec) -> Option<Dec>;

/// The result of `rust_decimal`'s `round_dp` (banker's rounding) on a decimal.
pub uninterp spec fn decimal_rounded(a: Dec, dp: u32) -> Dec;

/// What `rust_decimal`'s `Display` writes for a decimal.
pub uninterp spec fn decimal_text(a: Dec) -> Seq<char>;

/// `a` and `b` are the same number.
pub open spec fn value_eq(a: Dec, b: Dec) -> bool {
    a.num() * pow10(b.exp()) == b.num() * pow10(a.exp())
}

/// `a` is a smaller number than `b`.
pub open spec fn value_lt(a: Dec, b: Dec) -> bool {
    a.num() * pow10(b.exp()) < b.num() * pow10(a.exp())
}

/// `a` is at most `b`.
pub open spec fn value_le(a: Dec, b: Dec) -> bool {
    a.num() * pow10(b.exp()) <= b.num() * pow10(a.exp())
}

/// The larger of two scales.
pub open spec fn max_exp(a: Dec, b: Dec) -> nat {
    if a.exp() >= b.exp() {
        a.exp()
    } else {
        b.exp()
    }
}

/// `n` fits in a decimal's mantissa.
pub open spec fn fits(n: int) -> bool {
    -MAX_MANTISSA <= n <= MAX_MANTISSA
}

/// `a` and `b` written at their common scale, and their sum there, all fit in a mantissa:
/// the case in which `rust_decimal` adds exactly.
pub open spec fn sum_is_exact(a: Dec, b: Dec) -> bool {
    let m = max_exp(a, b);
    let x = a.num() * pow10((m - a.exp()) as nat);
    let y = b.num() * pow10((m - b.exp()) as nat);
    fits(x) && fits(y) && fits(x + y)
}

/// The same for a difference.
pub open spec fn difference_is_exact(a: Dec, b: Dec) -> bool {
    let m = max_exp(a, b);
    let x = a.num() * pow10((m - a.exp()) as nat);
    let y = b.num() * pow10((m - b.exp()) as nat);
    fits(x) && fits(y) && fits(x - y)
}

/// The product's digits and scale fit: the case in which `rust_decimal` multiplies exactly.
pub open spec fn product_is_exact(a: Dec, b: Dec) -> bool {
    a.exp() + b.exp() <= MAX_SCALE && fits(a.num() * b.num())
}

/// `r` is the number `n / 10^e`.
pub open spec fn denotes(r: Dec, n: int, e: nat) -> bool {
    r.num() * pow10(e) == n * pow10(r.exp())
}

/// `s` is the number `a + b`.
pub open spec fn is_exact_sum(a: Dec, b: Dec, s: Dec) -> bool {
    let m = max_exp(a, b);
    denotes(s, a.num() * pow10((m - a.exp()) as nat) + b.num() * pow10((m - b.exp()) as nat), m)
}

/// `s` is the number `a - b`.
pub open spec fn is_exact_difference(a: Dec, b: Dec, s: Dec) -> bool {
    let m = max_exp(a, b);
    denotes(s, a.num() * pow10((m - a.exp()) as nat) - b.num() * pow10((m - b.exp()) as nat), m)
}

/// `p` is the number `a * b`.
pub open spec fn is_exact_product(a: Dec, b: Dec, p: Dec) -> bool {
    denotes(p, a.num() * b.num(), a.exp() + b.exp())
}

/// The sum of two results, `None` when either is missing or the sum overflows.
pub open spec fn sum_of(a: Option<Dec>, b: Option<Dec>) -> Option<Dec> {
    match (a, b) {
        (Some(x), Some(y)) => decimal_sum(x, y),
        _ => None,
    }
}

/// The difference of two results, `None` when either is missing or it overflows.
pub open spec fn difference_of(a: Option<Dec>, b: Option<Dec>) -> Option<Dec> {
    match (a, b) {
        (Some(x), Some(y)) => decimal_difference(x, y),
        _ => None,
    }
}

/// The product of two results, `None` when either is missing or it overflows.
pub open spec fn product_of(a: Option<Dec>, b: Option<Dec>) -> Option<Dec> {
    match (a, b) {
        (Some(x), Some(y)) => decimal_product(x, y),
        _ => None,
    }
}

/// The quotient of two results, `None` when either is missing, the divisor is zero or it
/// overflows.
pub open spec fn quotient_of(a: Option<Dec>, b: Option<Dec>) -> Option<Dec> {
    match (a, b) {
        (Some(x), Some(y)) => decimal_quotient(x, y),
        _ => None,
    }
}

/// The running total of a sequence of amounts, added left to right from zero as the decimal
/// crate's `Sum` does; `None` once an addition overflows.
pub open spec fn sum_all(s: Seq<Dec>) -> Option<Dec>
    decreases s.len(),
{
    if s.len() == 0 {
        Some(Dec::spec_zero())
    } else {
        sum_of(sum_all(s.drop_last()), Some(s.last()))
    }
}

/// The larger of two amounts, `other` when they tie, as the decimal crate's `max` picks.
pub open spec fn max_of(a: Dec, b: Dec) -> Dec {
    if value_lt(a, b) {
        b
    } else {
        a
    }
}

/// The smaller of two amounts, as the decimal crate's `min` picks.
pub open spec fn min_of(a: Dec, b: Dec) -> Dec {
    if value_lt(b, a) {
        b
    } else {
        a
    }
}

/// A decimal computation overflowed the range a decimal holds, where the decimal crate's
/// operators would panic.
#[derive(Debug, Clone, Copy, PartialEq, Eq, Structural)]
pub struct Overflow;

/// The sum of two results.
pub fn opt_sum(a: Option<Dec>, b: Option<Dec>) -> (r: Option<Dec>)
    ensures
        r == sum_of(a, b),
{
    match (a, b) {
        (Some(x), Some(y)) => checked_sum(x, y),
        _ => None,
    }
}

/// The difference of two results.
pub fn opt_difference(a: Option<Dec>, b: Option<Dec>) -> (r: Option<Dec>)
    ensures
        r == difference_of(a, b),
{
    match (a, b) {
        (Some(x), Some(y)) => checked_difference(x, y),
        _ => None,
    }
}

/// The product of two results.
pub fn opt_product(a: Option<Dec>, b: Option<Dec>) -> (r: Option<Dec>)
    ensures
        r == product_of(a, b),
{
    match (a, b) {
        (Some(x), Some(y)) => checked_product(x, y),
        _ => None,
    }
}

/// The quotient of two results.
pub fn opt_quotient(a: Option<Dec>, b: Option<Dec>) -> (r: Option<Dec>)
    ensures
        r == quotient_of(a, b),
{
    match (a, b) {
        (Some(x), Some(y)) => checked_quotient(x, y),
        _ => None,
    }
}

impl Dec {
    #[verifier::type_invariant]
    spec fn well_formed(self) -> bool {
        -MAX_MANTISSA <= self.mantissa <= MAX_MANTISSA && self.scale <= MAX_SCALE
    }

    /// The mantissa, as a mathematical integer.
    pub closed spec fn num(self) -> int {
        self.mantissa as int
    }

    /// The scale, as a natural number.
    pub closed spec fn exp(self) -> nat {
        self.scale as nat
    }

    /// The decimal zero, `0` at scale 0.
    pub closed spec fn spec_zero() -> Dec {
        Dec { mantissa: 0, scale: 0 }
    }

    /// The decimal one, `1` at scale 0.
    pub closed spec fn spec_one() -> Dec {
        Dec { mantissa: 1, scale: 0 }
    }

    /// The decimal one hundred, `100` at scale 0.
    pub closed spec fn spec_hundred() -> Dec {
        Dec { mantissa: 100, scale: 0 }
    }

    /// The whole number `n` at scale 0.
    pub closed spec fn spec_int(n: int) -> Dec {
        Dec { mantissa: n as i128, scale: 0 }
    }

    /// Facts about the named constants.
    pub proof fn lemma_constants()
        ensures
            Dec::spec_zero().num() == 0 && Dec::spec_zero().exp() == 0,
            Dec::spec_one().num() == 1 && Dec::spec_one().exp() == 0,
            Dec::spec_hundred().num() == 100 && Dec::spec_hundred().exp() == 0,
            pow10(0) == 1,
    {
    }

    /// The number is below zero.
    pub open spec fn is_neg(self) -> bool {
        self.num() < 0
    }

    /// The number is zero.
    pub open spec fn is_zero_value(self) -> bool {
        self.num() == 0
    }

    /// The number is above zero.
    pub open spec fn is_pos(self) -> bool {
        self.num() > 0
    }

    /// A decimal from its mantissa and scale, when they are within bounds.
    pub fn from_parts(mantissa: i128, scale: u32) -> (r: Option<Dec>)
        ensures
            r is Some <==> (-MAX_MANTISSA <= mantissa <= MAX_MANTISSA && scale <= MAX_SCALE),
            r matches Some(d) ==> d.num() == mantissa && d.exp() == scale,
    {
        if -MAX_MANTISSA <= mantissa && mantissa <= MAX_MANTISSA && scale <= MAX_SCALE {
            Some(Dec { mantissa, scale })
        } else {
            None
        }
    }

    /// The decimal `mantissa / 10^scale`, for a scale within bounds.
    pub fn new(mantissa: i64, scale: u32) -> (r: Dec)
        requires
            scale <= MAX_SCALE,
        ensures
            r.num() == mantissa,
            r.exp() == scale,
    {
        Dec { mantissa: mantissa as i128, scale }
    }

    /// A whole number.
    pub fn from_int(n: i64) -> (r: Dec)
        ensures
            r.num() == n,
            r.exp() == 0,
            r == Dec::spec_int(n as int),
    {
        Dec { mantissa: n as i128, scale: 0 }
    }

    /// Zero.
    pub fn zero() -> (r: Dec)
        ensures
            r.num() == 0,
            r.exp() == 0,
            r == Dec::spec_zero(),
    {
        Dec { mantissa: 0, scale: 0 }
    }

    /// One.
    pub fn one() -> (r: Dec)
        ensures
            r.num() == 1,
            r.exp() == 0,
            r == Dec::spec_one(),
    {
        Dec { mantissa: 1, scale: 0 }
    }

    /// One hundred.
    pub fn hundred() -> (r: Dec)
        ensures
            r.num() == 100,
            r.exp() == 0,
            r == Dec::spec_hundred(),
    {
        Dec { mantissa: 100, scale: 0 }
    }

    /// The mantissa.
    pub fn mantissa(&self) -> (m: i128)
        ensures
            m == self.num(),
    {
        self.mantissa
    }

    /// The scale.
    pub fn scale(&self) -> (s: u32)
        ensures
            s == self.exp(),
    {
        self.scale
    }

    /// Whether the number is below zero.
    pub fn is_negative(&self) -> (b: bool)
        ensures
            b == self.is_neg(),
    {
        self.mantissa < 0
    }

    /// Whether the number is zero.
    pub fn is_zero(&self) -> (b: bool)
        ensures
            b == self.is_zero_value(),
    {
        self.mantissa == 0
    }

    /// Whether the number is above zero.
    pub fn is_positive(&self) -> (b: bool)
        ensures
            b == self.is_pos(),
    {
        self.mantissa > 0
    }

    /// How this number compares with another: `-1`, `0` or `1`.
    pub fn compare(&self, other: &Dec) -> (c: i8)
        ensures
            c == -1 <==> value_lt(*self, *other),
            c == 0 <==> value_eq(*self, *other),
            c == 1 <==> value_lt(*other, *self),
    {
        compare_values(self, other)
    }

    /// Whether this number is smaller than another.
    pub fn lt(&self, other: &Dec) -> (b: bool)
        ensures
            b == value_lt(*self, *other),
    {
        compare_values(self, other) == -1
    }

    /// Whether this number is at most another.
    pub fn le(&self, other: &Dec) -> (b: bool)
        ensures
            b == value_le(*self, *other),
    {
        compare_values(self, other) != 1
    }

    /// Whether this number equals another in value.
    pub fn same_value(&self, other: &Dec) -> (b: bool)
        ensures
            b == value_eq(*self, *other),
    {
        compare_values(self, other) == 0
    }

    /// The larger of two numbers.
    pub fn max(self, other: Dec) -> (r: Dec)
        ensures
            r == max_of(self, other),
    {
        if self.lt(&other) {
            other
        } else {
            self
        }
    }

    /// The smaller of two numbers.
    pub fn min(self, other: Dec) -> (r: Dec)
        ensures
            r == min_of(self, other),
    {
        if other.lt(&self) {
            other
        } else {
            self
        }
    }

    /// The number has no fractional part: `rust_decimal`'s `fract().is_zero()`.
    pub open spec fn spec_is_whole(self) -> bool {
        self.num() % pow10(self.exp()) == 0
    }

    /// The integer part, truncated towards zero.
    pub open spec fn spec_trunc(self) -> int {
        if self.num() >= 0 {
            self.num() / pow10(self.exp())
        } else {
            -((-self.num()) / pow10(self.exp()))
        }
    }

    /// `10^scale` as an integer of the machine.
    fn scale_power(&self) -> (p: i128)
        ensures
            p == pow10(self.exp()),
            p >= 1,
    {
        proof {
            use_type_invariant(self);
        }
        let mut p: i128 = 1;
        let mut k: u32 = 0;
        assert(pow10(MAX_SCALE as nat) == 10000000000000000000000000000int) by {
            reveal_with_fuel(pow10, 29);
        }
        while k < self.scale
            invariant
                k <= self.scale <= MAX_SCALE,
                p == pow10(k as nat),
                1 <= p <= 10000000000000000000000000000int,
                pow10(MAX_SCALE as nat) == 10000000000000000000000000000int,
            decreases self.scale - k,
        {
            proof {
                lemma_pow10_monotone((k + 1) as nat, MAX_SCALE as nat);
            }
            p = p * 10;
            k = k + 1;
        }
        p
    }

    /// The number without its sign, at the same scale.
    pub closed spec fn spec_abs(self) -> Dec {
        Dec { mantissa: (if self.mantissa < 0 { -(self.mantissa as int) } else { self.mantissa as int }) as i128, scale: self.scale }
    }

    /// The number without its sign is the number's size at the same scale, and a number that
    /// is not below zero is its own size.
    pub proof fn lemma_abs(self)
        requires
            fits(self.num()),
        ensures
            self.spec_abs().num() == (if self.num() < 0 {
                -self.num()
            } else {
                self.num()
            }),
            self.spec_abs().exp() == self.exp(),
            self.num() >= 0 ==> self.spec_abs() == self,
    {
    }

    /// The number without its sign, at the same scale.
    pub fn abs(&self) -> (r: Dec)
        ensures
            r == self.spec_abs(),
            r.num() == (if self.num() < 0 { -self.num() } else { self.num() }),
            r.exp() == self.exp(),
    {
        proof {
            use_type_invariant(self);
        }
        let m: i128 = if self.mantissa < 0 {
            -self.mantissa
        } else {
            self.mantissa
        };
        Dec { mantissa: m, scale: self.scale }
    }

    /// Whether the number has no fractional part.
    pub fn is_whole(&self) -> (b: bool)
        ensures
            b == self.spec_is_whole(),
    {
        proof {
            use_type_invariant(self);
        }
        let p = self.scale_power();
        let a: i128 = if self.mantissa < 0 {
            -self.mantissa
        } else {
            self.mantissa
        };
        proof {
            lemma_negated_divides(self.num(), p as int);
        }
        a % p == 0
    }

    /// The integer part, truncated towards zero, when it fits an `i32`: `rust_decimal`'s
    /// `to_i32`.
    pub fn to_i32(&self) -> (r: Option<i32>)
        ensures
            r is Some <==> i32::MIN <= self.spec_trunc() <= i32::MAX,
            r matches Some(n) ==> n == self.spec_trunc(),
    {
        proof {
            use_type_invariant(self);
        }
        let p = self.scale_power();
        let t: i128 = if self.mantissa >= 0 {
            self.mantissa / p
        } else {
            -((-self.mantissa) / p)
        };
        if i32::MIN as i128 <= t && t <= i32::MAX as i128 {
            Some(t as i32)
        } else {
            None
        }
    }

    /// The number as `rust_decimal` writes it.
    pub fn text(&self) -> (s: String)
        ensures
            s@ == decimal_text(*self),
    {
        decimal_to_text(self)
    }
}

impl PartialEq for Dec {
    fn eq(&self, other: &Dec) -> (r: bool) {
        compare_values(self, other) == 0
    }
}

impl vstd::std_specs::cmp::PartialEqSpecImpl for Dec {
    open spec fn obeys_eq_spec() -> bool {
        true
    }

    open spec fn eq_spec(&self, other: &Dec) -> bool {
        value_eq(*self, *other)
    }
}

impl Eq for Dec {

}

/// `rust_decimal`'s `Ord` on two decimals, which orders them by value; `-1`, `0` or `1`.
#[verifier::external_body]
fn compare_values(a: &Dec, b: &Dec) -> (c: i8)
    ensures
        c == -1 <==> value_lt(*a, *b),
        c == 0 <==> value_eq(*a, *b),
        c == 1 <==> value_lt(*b, *a),
{
    let x = Decimal::from_i128_with_scale(a.mantissa, a.scale);
    let y = Decimal::from_i128_with_scale(b.mantissa, b.scale);
    match x.cmp(&y) {
        std::cmp::Ordering::Less => -1,
        std::cmp::Ordering::Equal => 0,
        std::cmp::Ordering::Greater => 1,
    }
}

/// `rust_decimal`'s `checked_add`: `None` on overflow, exact when the operands and their sum
/// fit at the larger of the two scales.
#[verifier::external_body]
pub(crate) fn checked_sum(a: Dec, b: Dec) -> (r: Option<Dec>)
    ensures
        r == decimal_sum(a, b),
        sum_is_exact(a, b) ==> r is Some && is_exact_sum(a, b, r.unwrap()),
{
    let x = Decimal::from_i128_with_scale(a.mantissa, a.scale);
    let y = Decimal::from_i128_with_scale(b.mantissa, b.scale);
    match x.checked_add(y) {
        Some(d) => Some(Dec { mantissa: d.mantissa(), scale: d.scale() }),
        None => None,
    }
}

/// `rust_decimal`'s `checked_sub`: `None` on overflow, exact when the operands and their
/// difference fit at the larger of the two scales.
#[verifier::external_body]
pub(crate) fn checked_difference(a: Dec, b: Dec) -> (r: Option<Dec>)
    ensures
        r == decimal_difference(a, b),
        difference_is_exact(a, b) ==> r is Some && is_exact_difference(a, b, r.unwrap()),
{
    let x = Decimal::from_i128_with_scale(a.mantissa, a.scale);
    let y = Decimal::from_i128_with_scale(b.mantissa, b.scale);
    match x.checked_sub(y) {
        Some(d) => Some(Dec { mantissa: d.mantissa(), scale: d.scale() }),
        None => None,
    }
}

/// `rust_decimal`'s `checked_mul`: `None` on overflow, exact when the digits of the product
/// and the sum of the scales fit.
#[verifier::external_body]
pub(crate) fn checked_product(a: Dec, b: Dec) -> (r: Option<Dec>)
    ensures
        r == decimal_product(a, b),
        product_is_exact(a, b) ==> r is Some && is_exact_product(a, b, r.unwrap()),
{
    let x = Decimal::from_i128_with_scale(a.mantissa, a.scale);
    let y = Decimal::from_i128_with_scale(b.mantissa, b.scale);
    match x.checked_mul(y) {
        Some(d) => Some(Dec { mantissa: d.mantissa(), scale: d.scale() }),
        None => None,
    }
}

/// `rust_decimal`'s `checked_div`, which rounds the quotient to the precision a decimal holds;
/// `None` for a zero divisor or an overflow.
#[verifier::external_body]
pub(crate) fn checked_quotient(a: Dec, b: Dec) -> (r: Option<Dec>)
    ensures
        r == decimal_quotient(a, b),
        b.num() == 0 ==> r is None,
{
    let x = Decimal::from_i128_with_scale(a.mantissa, a.scale);
    let y = Decimal::from_i128_with_scale(b.mantissa, b.scale);
    match x.checked_div(y) {
        Some(d) => Some(Dec { mantissa: d.mantissa(), scale: d.scale() }),
        None => None,
    }
}

/// `rust_decimal`'s `round_dp`: the number rounded to `dp` decimal places, halves to even.
#[verifier::external_body]
pub(crate) fn rounded(a: Dec, dp: u32) -> (r: Dec)
    ensures
        r == decimal_rounded(a, dp),
{
    let d = Decimal::from_i128_with_scale(a.mantissa, a.scale).round_dp(dp);
    Dec { mantissa: d.mantissa(), scale: d.scale() }
}

/// `rust_decimal`'s `Display`.
#[verifier::external_body]
fn decimal_to_text(a: &Dec) -> (s: String)
    ensures
        s@ == decimal_text(*a),
{
    Decimal::from_i128_with_scale(a.mantissa, a.scale).to_string()
}

} // verus!
