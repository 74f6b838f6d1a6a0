//! Decimal amounts as the wallet tables hold them, and the arithmetic the
//! payment rules need, computed by `bigdecimal`.
use vstd::prelude::*;
use vstd::arithmetic::power::{pow, lemma_pow_positive, lemma_pow_adds};
use bigdecimal::BigDecimal;
use bigdecimal::num_bigint::{BigInt, Sign};

verus! {

/// The number that big-endian bytes stand for.
pub open spec fn bytes_value(bytes: Seq<u8>) -> nat
    decreases bytes.len(),
{
    if bytes.len() == 0 {
        0
    } else {
        bytes_value(bytes.drop_last()) * 256 + bytes.last() as nat
    }
}

/// A decimal number: its unscaled digits (a sign and a magnitude in
/// big-endian bytes, of any length) over `10^scale`.
#[derive(Clone, Debug)]
pub struct Decimal {
    pub negative: bool,
    pub magnitude: Vec<u8>,
    pub scale: u32,
}

impl Decimal {
    /// The unscaled digits as an integer.
    pub open spec fn digits(self) -> int {
        if self.negative {
            -(bytes_value(self.magnitude@) as int)
        } else {
            bytes_value(self.magnitude@) as int
        }
    }

    /// A copy of the decimal, written the same way.
    pub fn duplicate(&self) -> (r: Decimal)
        ensures
            same_decimal(r, *self),
    {
        let magnitude = self.magnitude.clone();
        proof {
            assert(magnitude@ =~= self.magnitude@);
        }
        Decimal { negative: self.negative, magnitude, scale: self.scale }
    }
}

/// `a` and `b` are written the same way.
pub open spec fn same_decimal(a: Decimal, b: Decimal) -> bool {
    a.negative == b.negative && a.magnitude@ == b.magnitude@ && a.scale == b.scale
}

/// `10^e`.
pub open spec fn pow10(e: nat) -> int {
    pow(10, e)
}

/// `d` stands for the number `num / 10^scale`.
pub open spec fn represents(d: Decimal, num: int, scale: nat) -> bool {
    d.digits() * pow10(scale) == num * pow10(d.scale as nat)
}

/// `d` stands for a number below the whole number `n`.
pub open spec fn below_whole(d: Decimal, n: int) -> bool {
    d.digits() < n * pow10(d.scale as nat)
}

/// `d` stands for a number that is zero or more.
pub open spec fn non_negative(d: Decimal) -> bool {
    d.digits() >= 0
}

/// `d`, written with `s` digits after the point (`s` at least `d.scale`).
pub open spec fn at_scale(d: Decimal, s: nat) -> int {
    d.digits() * pow10((s - d.scale) as nat)
}

/// The sum of `a` and `b`, written with `s` digits after the point.
pub open spec fn total_at(a: Decimal, b: Decimal, s: nat) -> int {
    at_scale(a, s) + at_scale(b, s)
}

/// `BigDecimal::from(n)` for a `u64`, read back with `into_bigint_and_scale`
/// and `BigInt::to_bytes_be`: the whole number `n`, with no digits after the
/// point.
#[verifier::external_body]
pub(crate) fn decimal_from_u64(n: u64) -> (r: Decimal)
    ensures
        r.digits() == n,
        r.scale == 0,
{
    let (m, s) = BigDecimal::from(n).into_bigint_and_scale();
    let (sign, magnitude) = m.to_bytes_be();
    Decimal { negative: sign == Sign::Minus, magnitude, scale: s as u32 }
}

/// `BigDecimal < BigDecimal`, the left side made by `BigDecimal::new` of
/// `BigInt::from_bytes_be`, the right side by `BigDecimal::from(n)`. Claims
/// that the crate compares the two numbers by value.
#[verifier::external_body]
pub(crate) fn decimal_below_u64(a: &Decimal, n: u64) -> (r: bool)
    ensures
        r == below_whole(*a, n as int),
{
    let sign = if a.negative { Sign::Minus } else { Sign::Plus };
    BigDecimal::new(BigInt::from_bytes_be(sign, &a.magnitude), a.scale as i64) < BigDecimal::from(n)
}

/// `BigDecimal - BigDecimal`, the left side made by `BigDecimal::new` of
/// `BigInt::from_bytes_be`, the right side by `BigDecimal::from(n)`, read back
/// with `into_bigint_and_scale` and `BigInt::to_bytes_be`. Claims that the
/// difference is exact. Its scale is `a`'s, or zero where `a` is zero, as the
/// crate's `Sub` shows, so it fits in a `u32`.
#[verifier::external_body]
pub(crate) fn decimal_minus_u64(a: &Decimal, n: u64) -> (r: Decimal)
    ensures
        represents(r, a.digits() - n * pow10(a.scale as nat), a.scale as nat),
{
    let sign = if a.negative { Sign::Minus } else { Sign::Plus };
    let x = BigDecimal::new(BigInt::from_bytes_be(sign, &a.magnitude), a.scale as i64) - BigDecimal::from(n);
    let (m, s) = x.into_bigint_and_scale();
    let (sign, magnitude) = m.to_bytes_be();
    Decimal { negative: sign == Sign::Minus, magnitude, scale: s as u32 }
}

/// `BigDecimal + BigDecimal`, the left side made by `BigDecimal::new` of
/// `BigInt::from_bytes_be`, the right side by `BigDecimal::from(n)`, read back
/// with `into_bigint_and_scale` and `BigInt::to_bytes_be`. Claims that the sum
/// is exact. Its scale is `a`'s, as the crate's `Add` shows, so it fits in a
/// `u32`.
#[verifier::external_body]
pub(crate) fn decimal_plus_u64(a: &Decimal, n: u64) -> (r: Decimal)
    ensures
        represents(r, a.digits() + n * pow10(a.scale as nat), a.scale as nat),
{
    let sign = if a.negative { Sign::Minus } else { Sign::Plus };
    let x = BigDecimal::new(BigInt::from_bytes_be(sign, &a.magnitude), a.scale as i64) + BigDecimal::from(n);
    let (m, s) = x.into_bigint_and_scale();
    let (sign, magnitude) = m.to_bytes_be();
    Decimal { negative: sign == Sign::Minus, magnitude, scale: s as u32 }
}

/// A number written with more digits after the point keeps its value.
pub proof fn lemma_rescale(x: Decimal, num: int, s: nat, target: nat)
    requires
        represents(x, num, s),
        target >= s + x.scale,
    ensures
        at_scale(x, target) == num * pow10((target - s) as nat),
{
    let a: nat = (target - s - x.scale) as nat;
    lemma_pow_adds(10, s, a);
    lemma_pow_adds(10, x.scale as nat, a);
    assert((target - x.scale) as nat == s + a);
    assert((target - s) as nat == x.scale + a);
    let p = pow10(s);
    let q = pow10(x.scale as nat);
    let t = pow10(a);
    assert(x.digits() * p == num * q);
    assert(x.digits() * (p * t) == num * (q * t)) by (nonlinear_arith)
        requires
            x.digits() * p == num * q,
    ;
}

/// Taking a whole amount from a balance that holds at least that amount
/// leaves a balance that is not negative.
pub proof fn debit_keeps_balance_non_negative(before: Decimal, amount: int, after: Decimal)
    requires
        amount >= 0,
        !below_whole(before, amount),
        represents(after, before.digits() - amount * pow10(before.scale as nat), before.scale as nat),
    ensures
        non_negative(after),
{
    lemma_pow_positive(10, before.scale as nat);
    lemma_pow_positive(10, after.scale as nat);
    let p = pow10(before.scale as nat);
    let q = pow10(after.scale as nat);
    let num = before.digits() - amount * p;
    assert(num >= 0);
    assert(after.digits() * p == num * q);
    assert(after.digits() >= 0) by (nonlinear_arith)
        requires
            after.digits() * p == num * q,
            p > 0,
            q > 0,
            num >= 0,
    ;
}

/// Moving a whole amount from one balance to another keeps their sum: with
/// `target` digits after the point (enough for all four), the two balances
/// after add up to the two before.
pub proof fn transfer_keeps_total(
    from_before: Decimal,
    from_after: Decimal,
    to_before: Decimal,
    to_after: Decimal,
    amount: int,
    target: nat,
)
    requires
        represents(from_after, from_before.digits() - amount * pow10(from_before.scale as nat), from_before.scale as nat),
        represents(to_after, to_before.digits() + amount * pow10(to_before.scale as nat), to_before.scale as nat),
        target >= from_before.scale + from_after.scale + to_before.scale + to_after.scale,
    ensures
        total_at(from_after, to_after, target) == total_at(from_before, to_before, target),
{
    let fs = from_before.scale as nat;
    let ts = to_before.scale as nat;
    lemma_rescale(from_after, from_before.digits() - amount * pow10(fs), fs, target);
    lemma_rescale(to_after, to_before.digits() + amount * pow10(ts), ts, target);
    lemma_pow_adds(10, fs, (target - fs) as nat);
    lemma_pow_adds(10, ts, (target - ts) as nat);
    let big = pow10(target);
    let f = pow10((target - fs) as nat);
    let t = pow10((target - ts) as nat);
    assert(pow10(fs) * f == big);
    assert(pow10(ts) * t == big);
    assert((from_before.digits() - amount * pow10(fs)) * f == from_before.digits() * f - amount * big) by (nonlinear_arith)
        requires
            pow10(fs) * f == big,
    ;
    assert((to_before.digits() + amount * pow10(ts)) * t == to_before.digits() * t + amount * big) by (nonlinear_arith)
        requires
            pow10(ts) * t == big,
    ;
}

} // verus!
