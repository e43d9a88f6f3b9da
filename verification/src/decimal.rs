use vstd::prelude::*;
use rust_decimal::Decimal;

verus! {

/// A decimal number `mantissa × 10^(-scale)`, as `rust_decimal::Decimal` stores it:
/// the scale is at most 28 and the mantissa fits in 96 bits and a sign.
///
/// Two amounts with different representations may denote the same number
/// (`1.0` and `1.00`); `value28` gives the number itself.
#[derive(Clone, Copy, Debug, PartialEq, Eq)]
pub struct Amount {
    pub mantissa: i128,
    pub scale: u32,
}

/// 2^96: every mantissa lies strictly between its negation and itself.
pub open spec fn mantissa_limit() -> int {
    79228162514264337593543950336
}

/// Powers of ten.
pub open spec fn pow10(n: nat) -> int
    decreases n,
{
    if n == 0 {
        1
    } else {
        10 * pow10((n - 1) as nat)
    }
}

/// The amount is a representable decimal.
pub open spec fn well_formed(a: Amount) -> bool {
    &&& a.scale <= 28
    &&& -mantissa_limit() < a.mantissa < mantissa_limit()
}

/// The number that an amount denotes, multiplied by 10^28 (an integer).
pub open spec fn value28(a: Amount) -> int {
    a.mantissa * pow10((28 - a.scale) as nat)
}

/// The mantissa of `a` written with `scale` digits after the point.
pub open spec fn aligned(a: Amount, scale: nat) -> int {
    a.mantissa * pow10((scale - a.scale) as nat)
}

pub open spec fn max_nat(a: nat, b: nat) -> nat {
    if a >= b {
        a
    } else {
        b
    }
}

pub open spec fn fits96(x: int) -> bool {
    -mantissa_limit() < x < mantissa_limit()
}

/// The zero that arithmetic starts from (mantissa 0, scale 0).
pub open spec fn zero_amount() -> Amount {
    Amount { mantissa: 0, scale: 0 }
}

/// The decimal `Decimal + Decimal` gives: a zero operand yields the other one
/// unchanged; otherwise both are written at the larger scale and added.
pub open spec fn spec_add(a: Amount, b: Amount) -> Amount {
    if a.mantissa == 0 {
        b
    } else if b.mantissa == 0 {
        a
    } else {
        let s = max_nat(a.scale as nat, b.scale as nat);
        Amount { mantissa: (aligned(a, s) + aligned(b, s)) as i128, scale: s as u32 }
    }
}

/// The decimal `Decimal - Decimal` gives.
pub open spec fn spec_sub(a: Amount, b: Amount) -> Amount {
    if a.mantissa == 0 {
        Amount { mantissa: (-b.mantissa) as i128, scale: b.scale }
    } else if b.mantissa == 0 {
        a
    } else {
        let s = max_nat(a.scale as nat, b.scale as nat);
        Amount { mantissa: (aligned(a, s) - aligned(b, s)) as i128, scale: s as u32 }
    }
}

/// The decimal `Decimal * Decimal` gives when the product needs no rounding.
pub open spec fn spec_mul(a: Amount, b: Amount) -> Amount {
    if a.mantissa == 0 || b.mantissa == 0 {
        zero_amount()
    } else {
        Amount { mantissa: (a.mantissa * b.mantissa) as i128, scale: (a.scale + b.scale) as u32 }
    }
}

/// Both operands and their sum, written at the larger scale, fit in 96 bits:
/// the addition is exact and does not overflow.
pub open spec fn add_exact(a: Amount, b: Amount) -> bool {
    let s = max_nat(a.scale as nat, b.scale as nat);
    &&& well_formed(a)
    &&& well_formed(b)
    &&& fits96(aligned(a, s))
    &&& fits96(aligned(b, s))
    &&& fits96(aligned(a, s) + aligned(b, s))
}

/// Same as `add_exact`, for a subtraction.
pub open spec fn sub_exact(a: Amount, b: Amount) -> bool {
    let s = max_nat(a.scale as nat, b.scale as nat);
    &&& well_formed(a)
    &&& well_formed(b)
    &&& fits96(aligned(a, s))
    &&& fits96(aligned(b, s))
    &&& fits96(aligned(a, s) - aligned(b, s))
}

/// The product of the mantissas fits in 96 bits and the scales add up to at
/// most 28: the multiplication is exact and does not overflow.
pub open spec fn mul_exact(a: Amount, b: Amount) -> bool {
    &&& well_formed(a)
    &&& well_formed(b)
    &&& fits96(a.mantissa * b.mantissa)
    &&& a.scale + b.scale <= 28
}

/// `rust_decimal`'s `Decimal + Decimal`, on operands rebuilt with
/// `Decimal::from_i128_with_scale` and read back with `mantissa()` and
/// `scale()`. Claimed: when `add_exact` holds, the sum is exact and laid out as
/// `spec_add` says (a zero operand gives back the other one, otherwise the
/// aligned mantissas are added at the larger scale).
#[verifier::external_body]
fn decimal_add(a: Amount, b: Amount) -> (r: Amount)
    requires
        add_exact(a, b),
    ensures
        r == spec_add(a, b),
{
    let x = Decimal::from_i128_with_scale(a.mantissa, a.scale);
    let y = Decimal::from_i128_with_scale(b.mantissa, b.scale);
    let z = x + y;
    Amount { mantissa: z.mantissa(), scale: z.scale() }
}

/// `rust_decimal`'s `Decimal - Decimal`, read back as for `decimal_add`.
/// Claimed: when `sub_exact` holds, the difference is exact and laid out as
/// `spec_sub` says.
#[verifier::external_body]
fn decimal_sub(a: Amount, b: Amount) -> (r: Amount)
    requires
        sub_exact(a, b),
    ensures
        r == spec_sub(a, b),
{
    let x = Decimal::from_i128_with_scale(a.mantissa, a.scale);
    let y = Decimal::from_i128_with_scale(b.mantissa, b.scale);
    let z = x - y;
    Amount { mantissa: z.mantissa(), scale: z.scale() }
}

/// `rust_decimal`'s `Decimal * Decimal`, read back as for `decimal_add`.
/// Claimed: when `mul_exact` holds, a zero factor gives the zero of scale 0 and
/// otherwise the mantissas multiply and the scales add.
#[verifier::external_body]
fn decimal_mul(a: Amount, b: Amount) -> (r: Amount)
    requires
        mul_exact(a, b),
    ensures
        r == spec_mul(a, b),
{
    let x = Decimal::from_i128_with_scale(a.mantissa, a.scale);
    let y = Decimal::from_i128_with_scale(b.mantissa, b.scale);
    let z = x * y;
    Amount { mantissa: z.mantissa(), scale: z.scale() }
}

/// `rust_decimal`'s `Decimal >= Decimal` on operands rebuilt with
/// `Decimal::from_i128_with_scale`. Claimed: it compares the numbers the
/// amounts denote (rust_decimal orders decimals by value, whatever their scales).
#[verifier::external_body]
fn decimal_at_least(a: Amount, b: Amount) -> (r: bool)
    requires
        well_formed(a),
        well_formed(b),
    ensures
        r == (value28(a) >= value28(b)),
{
    Decimal::from_i128_with_scale(a.mantissa, a.scale) >= Decimal::from_i128_with_scale(b.mantissa, b.scale)
}

impl Amount {
    /// `Decimal::new(mantissa, scale)` for an `i64` mantissa.
    pub fn new(mantissa: i64, scale: u32) -> (r: Amount)
        requires
            scale <= 28,
        ensures
            r == (Amount { mantissa: mantissa as i128, scale }),
            well_formed(r),
    {
        Amount { mantissa: mantissa as i128, scale }
    }

    /// `Decimal::ZERO`.
    pub fn zero() -> (r: Amount)
        ensures
            r == zero_amount(),
    {
        Amount { mantissa: 0, scale: 0 }
    }

    pub fn add(self, other: Amount) -> (r: Amount)
        requires
            add_exact(self, other),
        ensures
            r == spec_add(self, other),
            well_formed(r),
    {
        proof { lemma_add_well_formed(self, other); }
        decimal_add(self, other)
    }

    pub fn sub(self, other: Amount) -> (r: Amount)
        requires
            sub_exact(self, other),
        ensures
            r == spec_sub(self, other),
            well_formed(r),
    {
        proof { lemma_sub_well_formed(self, other); }
        decimal_sub(self, other)
    }

    pub fn mul(self, other: Amount) -> (r: Amount)
        requires
            mul_exact(self, other),
        ensures
            r == spec_mul(self, other),
            well_formed(r),
    {
        decimal_mul(self, other)
    }

    /// `self >= Decimal::ZERO`.
    pub fn is_non_negative(&self) -> (b: bool)
        ensures
            b == (self.mantissa >= 0),
            b == (value28(*self) >= 0),
    {
        proof { lemma_pow10_positive((28 - self.scale) as nat); }
        proof {
            if self.mantissa >= 0 {
                assert(value28(*self) >= 0) by (nonlinear_arith)
                    requires self.mantissa >= 0, pow10((28 - self.scale) as nat) > 0, value28(*self) == self.mantissa * pow10((28 - self.scale) as nat);
            } else {
                assert(value28(*self) < 0) by (nonlinear_arith)
                    requires self.mantissa < 0, pow10((28 - self.scale) as nat) > 0, value28(*self) == self.mantissa * pow10((28 - self.scale) as nat);
            }
        }
        self.mantissa >= 0
    }

    /// `self >= other`, on the numbers the amounts denote.
    pub fn at_least(&self, other: Amount) -> (b: bool)
        requires
            well_formed(*self),
            well_formed(other),
        ensures
            b == (value28(*self) >= value28(other)),
    {
        decimal_at_least(*self, other)
    }

    /// `self > Decimal::ZERO`.
    pub fn is_positive(&self) -> (b: bool)
        ensures
            b == (self.mantissa > 0),
            b == (value28(*self) > 0),
    {
        proof { lemma_pow10_positive((28 - self.scale) as nat); }
        proof {
            if self.mantissa > 0 {
                assert(value28(*self) > 0) by (nonlinear_arith)
                    requires self.mantissa > 0, pow10((28 - self.scale) as nat) > 0, value28(*self) == self.mantissa * pow10((28 - self.scale) as nat);
            } else {
                assert(value28(*self) <= 0) by (nonlinear_arith)
                    requires self.mantissa <= 0, pow10((28 - self.scale) as nat) > 0, value28(*self) == self.mantissa * pow10((28 - self.scale) as nat);
            }
        }
        self.mantissa > 0
    }
}

pub proof fn lemma_pow10_positive(n: nat)
    ensures
        pow10(n) > 0,
    decreases n,
{
    if n > 0 {
        lemma_pow10_positive((n - 1) as nat);
    }
}

pub proof fn lemma_pow10_add(a: nat, b: nat)
    ensures
        pow10(a + b) == pow10(a) * pow10(b),
    decreases a,
{
    if a == 0 {
        assert(pow10(b) == 1 * pow10(b));
    } else {
        lemma_pow10_add((a - 1) as nat, b);
        assert(pow10(a + b) == 10 * pow10((a - 1 + b) as nat));
        assert(10 * (pow10((a - 1) as nat) * pow10(b)) == (10 * pow10((a - 1) as nat)) * pow10(b))
            by (nonlinear_arith);
    }
}

proof fn lemma_add_well_formed(a: Amount, b: Amount)
    requires
        add_exact(a, b),
    ensures
        well_formed(spec_add(a, b)),
{
}

proof fn lemma_sub_well_formed(a: Amount, b: Amount)
    requires
        sub_exact(a, b),
    ensures
        well_formed(spec_sub(a, b)),
{
}

/// Writing an amount at a larger scale keeps the number it denotes.
proof fn lemma_aligned_value(a: Amount, s: nat)
    requires
        a.scale <= s <= 28,
    ensures
        aligned(a, s) * pow10((28 - s) as nat) == value28(a),
{
    lemma_pow10_add((s - a.scale) as nat, (28 - s) as nat);
    assert(((s - a.scale) as nat + (28 - s) as nat) == (28 - a.scale) as nat);
    assert(a.mantissa * pow10((s - a.scale) as nat) * pow10((28 - s) as nat)
        == a.mantissa * (pow10((s - a.scale) as nat) * pow10((28 - s) as nat))) by (nonlinear_arith);
}

/// Exact addition adds the numbers the amounts denote.
pub proof fn lemma_add_value(a: Amount, b: Amount)
    requires
        add_exact(a, b),
    ensures
        value28(spec_add(a, b)) == value28(a) + value28(b),
{
    if a.mantissa == 0 {
        assert(value28(a) == 0);
    } else if b.mantissa == 0 {
        assert(value28(b) == 0);
    } else {
        let s = max_nat(a.scale as nat, b.scale as nat);
        lemma_aligned_value(a, s);
        lemma_aligned_value(b, s);
        let p = pow10((28 - s) as nat);
        assert((aligned(a, s) + aligned(b, s)) * p == aligned(a, s) * p + aligned(b, s) * p)
            by (nonlinear_arith);
    }
}

/// Exact subtraction subtracts the numbers the amounts denote.
pub proof fn lemma_sub_value(a: Amount, b: Amount)
    requires
        sub_exact(a, b),
    ensures
        value28(spec_sub(a, b)) == value28(a) - value28(b),
{
    if a.mantissa == 0 {
        assert(value28(a) == 0);
        assert(value28(spec_sub(a, b)) == -value28(b)) by (nonlinear_arith)
            requires spec_sub(a, b).mantissa == -b.mantissa, spec_sub(a, b).scale == b.scale,
                value28(spec_sub(a, b)) == spec_sub(a, b).mantissa * pow10((28 - b.scale) as nat),
                value28(b) == b.mantissa * pow10((28 - b.scale) as nat);
    } else if b.mantissa == 0 {
        assert(value28(b) == 0);
    } else {
        let s = max_nat(a.scale as nat, b.scale as nat);
        lemma_aligned_value(a, s);
        lemma_aligned_value(b, s);
        let p = pow10((28 - s) as nat);
        assert((aligned(a, s) - aligned(b, s)) * p == aligned(a, s) * p - aligned(b, s) * p)
            by (nonlinear_arith);
    }
}

/// Exact multiplication multiplies the numbers the amounts denote
/// (both sides carry the factor 10^28 once more on the right).
pub proof fn lemma_mul_value(a: Amount, b: Amount)
    requires
        mul_exact(a, b),
    ensures
        value28(spec_mul(a, b)) * pow10(28) == value28(a) * value28(b),
{
    if a.mantissa == 0 {
        assert(value28(a) == 0);
        assert(value28(spec_mul(a, b)) == 0);
    } else if b.mantissa == 0 {
        assert(value28(b) == 0) by (nonlinear_arith)
            requires b.mantissa == 0, value28(b) == b.mantissa * pow10((28 - b.scale) as nat);
        assert(value28(spec_mul(a, b)) == 0);
        assert(value28(a) * value28(b) == 0) by (nonlinear_arith) requires value28(b) == 0;
    } else {
        let pa = pow10((28 - a.scale) as nat);
        let pb = pow10((28 - b.scale) as nat);
        let pr = pow10((28 - (a.scale + b.scale)) as nat);
        lemma_pow10_add((28 - (a.scale + b.scale)) as nat, 28);
        lemma_pow10_add((28 - a.scale) as nat, (28 - b.scale) as nat);
        assert(((28 - (a.scale + b.scale)) as nat + 28nat) == ((28 - a.scale) as nat + (28 - b.scale) as nat));
        assert(pr * pow10(28) == pa * pb);
        assert((a.mantissa * b.mantissa) * pr * pow10(28) == (a.mantissa * pa) * (b.mantissa * pb))
            by (nonlinear_arith)
            requires pr * pow10(28) == pa * pb;
    }
}

} // verus!
