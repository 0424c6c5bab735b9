//! Exact decimal numbers: a signed 96-bit mantissa over a power of ten.
//!
//! The numbers are the ones that `rust_decimal::Decimal` can hold, kept here as
//! plain integers so that the ledger's rules can speak of them. Sums,
//! differences and comparisons are computed by `rust_decimal`.

use vstd::prelude::*;

verus! {

/// The largest scale: a value has at most 28 digits after the decimal point.
pub const MAX_SCALE: u32 = 28;

/// The largest mantissa, 2^96 - 1. The smallest is its negation.
pub const MAX_MANTISSA: i128 = 79_228_162_514_264_337_593_543_950_335;

/// Ten to the power `n`.
pub open spec fn pow10(n: nat) -> int
    decreases n,
{
    if n == 0 {
        1
    } else {
        10 * pow10((n - 1) as nat)
    }
}

/// Powers of ten are positive.
pub proof fn lemma_pow10_positive(n: nat)
    ensures
        pow10(n) > 0,
    decreases n,
{
    if n > 0 {
        lemma_pow10_positive((n - 1) as nat);
    }
}

/// A power of ten with a sum in the exponent is the product of the powers.
pub proof fn lemma_pow10_adds(m: nat, n: nat)
    ensures
        pow10(m + n) == pow10(m) * pow10(n),
    decreases m,
{
    if m > 0 {
        lemma_pow10_adds((m - 1) as nat, n);
        let rest = pow10((m - 1) as nat);
        let other = pow10(n);
        assert(pow10(m + n) == 10 * pow10((m - 1 + n) as nat));
        assert(10 * (rest * other) == (10 * rest) * other) by (nonlinear_arith);
    }
}

/// The mathematical value `mantissa / 10^scale`.
pub struct DecimalFraction {
    pub mantissa: int,
    pub scale: nat,
}

impl DecimalFraction {
    /// The mantissa fits in 96 bits and the scale is at most 28.
    pub open spec fn representable(self) -> bool {
        -MAX_MANTISSA <= self.mantissa <= MAX_MANTISSA && self.scale <= MAX_SCALE
    }

    pub open spec fn is_zero(self) -> bool {
        self.mantissa == 0
    }

    /// The value with the opposite sign, at the same scale.
    pub open spec fn negated(self) -> DecimalFraction {
        DecimalFraction { mantissa: -self.mantissa, scale: self.scale }
    }

    /// The value counted in units of `10^-scale`. Exact for every `scale` that
    /// is at least `self.scale`.
    pub open spec fn units(self, scale: nat) -> int {
        self.mantissa * pow10((scale - self.scale) as nat)
    }

    /// Both stand for the same number, whatever their scales.
    pub open spec fn same_value(self, other: DecimalFraction) -> bool {
        self.mantissa * pow10(other.scale) == other.mantissa * pow10(self.scale)
    }

    /// `self` is the smaller number.
    pub open spec fn less_than(self, other: DecimalFraction) -> bool {
        self.mantissa * pow10(other.scale) < other.mantissa * pow10(self.scale)
    }

    /// The value written out in decimal notation, as `rust_decimal` does it.
    pub open spec fn text(self) -> Seq<char> {
        decimal_text(self.mantissa, self.scale)
    }

    /// The sum as `rust_decimal` computes it; `None` where it overflows.
    pub open spec fn plus(self, other: DecimalFraction) -> Option<DecimalFraction> {
        match decimal_sum(self.mantissa, self.scale, other.mantissa, other.scale) {
            Some((mantissa, scale)) => Some(DecimalFraction { mantissa, scale }),
            None => None,
        }
    }

    /// The difference as `rust_decimal` computes it; `None` where it overflows.
    pub open spec fn minus(self, other: DecimalFraction) -> Option<DecimalFraction> {
        match decimal_difference(self.mantissa, self.scale, other.mantissa, other.scale) {
            Some((mantissa, scale)) => Some(DecimalFraction { mantissa, scale }),
            None => None,
        }
    }
}

/// Equality and order of two values, which are stated over products of
/// mantissas and powers of ten, say the same as counting both values in units
/// of `10^-scale`, for every scale that is at least the scale of each.
pub proof fn lemma_comparisons_count_units(a: DecimalFraction, b: DecimalFraction, scale: nat)
    requires
        scale >= a.scale,
        scale >= b.scale,
    ensures
        a.same_value(b) <==> a.units(scale) == b.units(scale),
        a.less_than(b) <==> a.units(scale) < b.units(scale),
{
    let up_a = pow10((scale - a.scale) as nat);
    let up_b = pow10((scale - b.scale) as nat);
    let down_a = pow10(a.scale);
    let down_b = pow10(b.scale);
    let whole = pow10(scale);
    lemma_pow10_adds((scale - a.scale) as nat, a.scale);
    lemma_pow10_adds((scale - b.scale) as nat, b.scale);
    lemma_pow10_positive(scale);
    lemma_pow10_positive((scale - a.scale) as nat);
    lemma_pow10_positive((scale - b.scale) as nat);
    let m = a.mantissa;
    let n = b.mantissa;
    let x = m * up_a - n * up_b;
    let y = m * down_b - n * down_a;
    let both = up_a * up_b;
    assert((m * up_a) * (up_b * down_b) == (m * down_b) * (up_a * up_b)) by (nonlinear_arith);
    assert((n * up_b) * (up_a * down_a) == (n * down_a) * (up_a * up_b)) by (nonlinear_arith);
    assert(x * whole == (m * up_a) * whole - (n * up_b) * whole) by (nonlinear_arith)
        requires
            x == m * up_a - n * up_b,
    ;
    assert(y * both == (m * down_b) * both - (n * down_a) * both) by (nonlinear_arith)
        requires
            y == m * down_b - n * down_a,
    ;
    assert(x * whole == y * both);
    assert(both > 0) by (nonlinear_arith)
        requires
            both == up_a * up_b,
            up_a > 0,
            up_b > 0,
    ;
    assert((x == 0 <==> y == 0) && (x < 0 <==> y < 0)) by (nonlinear_arith)
        requires
            x * whole == y * both,
            whole > 0,
            both > 0,
    ;
}

/// What `rust_decimal::Decimal::checked_add` returns for `m1 / 10^s1` and
/// `m2 / 10^s2`: mantissa and scale of the sum, or `None` on overflow.
pub uninterp spec fn decimal_sum(m1: int, s1: nat, m2: int, s2: nat) -> Option<(int, nat)>;

/// What `rust_decimal::Decimal::checked_sub` returns for `m1 / 10^s1` and
/// `m2 / 10^s2`: mantissa and scale of the difference, or `None` on overflow.
pub uninterp spec fn decimal_difference(m1: int, s1: nat, m2: int, s2: nat) -> Option<(int, nat)>;

/// What `rust_decimal::Decimal`'s `Display` writes for `m / 10^s`.
pub uninterp spec fn decimal_text(m: int, s: nat) -> Seq<char>;

/// Whether mantissa `m` and scale `s` are within what `rust_decimal` accepts.
pub open spec fn in_range(m: i128, s: u32) -> bool {
    -MAX_MANTISSA <= m <= MAX_MANTISSA && s <= MAX_SCALE
}

/// Adds two decimals with `rust_decimal::Decimal::checked_add`.
///
/// Trusted: the result is the named sum of the two operands, and, like every
/// `Decimal`, it has a 96-bit mantissa and a scale of at most 28. The operands
/// must be in range, or building them with `Decimal::from_i128_with_scale`
/// would panic.
#[verifier::external_body]
fn decimal_checked_add(m1: i128, s1: u32, m2: i128, s2: u32) -> (r: Option<(i128, u32)>)
    requires
        in_range(m1, s1),
        in_range(m2, s2),
    ensures
        match r {
            Some((m, s)) => in_range(m, s) && decimal_sum(
                m1 as int,
                s1 as nat,
                m2 as int,
                s2 as nat,
            ) == Some((m as int, s as nat)),
            None => decimal_sum(m1 as int, s1 as nat, m2 as int, s2 as nat) is None,
        },
{
    let a = rust_decimal::Decimal::from_i128_with_scale(m1, s1);
    let b = rust_decimal::Decimal::from_i128_with_scale(m2, s2);
    match a.checked_add(b) {
        Some(d) => Some((d.mantissa(), d.scale())),
        None => None,
    }
}

/// Subtracts two decimals with `rust_decimal::Decimal::checked_sub`.
///
/// Trusted: the result is the named difference of the two operands, and, like
/// every `Decimal`, it has a 96-bit mantissa and a scale of at most 28. The
/// operands must be in range, or building them with
/// `Decimal::from_i128_with_scale` would panic.
#[verifier::external_body]
fn decimal_checked_sub(m1: i128, s1: u32, m2: i128, s2: u32) -> (r: Option<(i128, u32)>)
    requires
        in_range(m1, s1),
        in_range(m2, s2),
    ensures
        match r {
            Some((m, s)) => in_range(m, s) && decimal_difference(
                m1 as int,
                s1 as nat,
                m2 as int,
                s2 as nat,
            ) == Some((m as int, s as nat)),
            None => decimal_difference(m1 as int, s1 as nat, m2 as int, s2 as nat) is None,
        },
{
    let a = rust_decimal::Decimal::from_i128_with_scale(m1, s1);
    let b = rust_decimal::Decimal::from_i128_with_scale(m2, s2);
    match a.checked_sub(b) {
        Some(d) => Some((d.mantissa(), d.scale())),
        None => None,
    }
}

/// Compares two decimals with `rust_decimal::Decimal`'s `<`.
///
/// Trusted: `Decimal` orders by numeric value, so `m1 / 10^s1 < m2 / 10^s2`,
/// stated here with both sides multiplied by `10^s1 * 10^s2`. The operands
/// must be in range, or building them would panic.
#[verifier::external_body]
fn decimal_less(m1: i128, s1: u32, m2: i128, s2: u32) -> (less: bool)
    requires
        in_range(m1, s1),
        in_range(m2, s2),
    ensures
        less == (m1 * pow10(s2 as nat) < m2 * pow10(s1 as nat)),
{
    let a = rust_decimal::Decimal::from_i128_with_scale(m1, s1);
    let b = rust_decimal::Decimal::from_i128_with_scale(m2, s2);
    a < b
}

/// Compares two decimals with `rust_decimal::Decimal`'s `==`.
///
/// Trusted: `Decimal` equality is equality of numeric value, whatever the
/// scales, so `m1 / 10^s1 == m2 / 10^s2`, stated here with both sides
/// multiplied by `10^s1 * 10^s2`. The operands must be in range, or building
/// them would panic.
#[verifier::external_body]
fn decimal_equal(m1: i128, s1: u32, m2: i128, s2: u32) -> (equal: bool)
    requires
        in_range(m1, s1),
        in_range(m2, s2),
    ensures
        equal == (m1 * pow10(s2 as nat) == m2 * pow10(s1 as nat)),
{
    let a = rust_decimal::Decimal::from_i128_with_scale(m1, s1);
    let b = rust_decimal::Decimal::from_i128_with_scale(m2, s2);
    a == b
}

/// Writes a decimal with `rust_decimal::Decimal`'s `to_string`, which goes by
/// its `Display`.
///
/// Trusted: the text is the named one, which depends on the mantissa and the
/// scale alone. The operand must be in range, or building it would panic.
#[verifier::external_body]
fn decimal_to_string(m: i128, s: u32) -> (text: String)
    requires
        in_range(m, s),
    ensures
        text@ == decimal_text(m as int, s as nat),
{
    rust_decimal::Decimal::from_i128_with_scale(m, s).to_string()
}

/// An exact decimal number with a 96-bit mantissa and up to 28 fractional
/// digits: the value `mantissa / 10^scale`.
#[derive(Debug, Clone, Copy)]
pub struct FixedDecimal {
    mantissa: i128,
    scale: u32,
}

impl View for FixedDecimal {
    type V = DecimalFraction;

    closed spec fn view(&self) -> DecimalFraction {
        DecimalFraction { mantissa: self.mantissa as int, scale: self.scale as nat }
    }
}

impl FixedDecimal {
    #[verifier::type_invariant]
    spec fn within_range(self) -> bool {
        in_range(self.mantissa, self.scale)
    }

    /// The decimal `mantissa / 10^scale`, or `None` where the mantissa does not
    /// fit in 96 bits or the scale is above 28.
    pub fn new(mantissa: i128, scale: u32) -> (r: Option<FixedDecimal>)
        ensures
            r is Some <==> in_range(mantissa, scale),
            r matches Some(d) ==> d@ == (DecimalFraction {
                mantissa: mantissa as int,
                scale: scale as nat,
            }),
    {
        if scale > MAX_SCALE || mantissa > MAX_MANTISSA || mantissa < -MAX_MANTISSA {
            None
        } else {
            Some(FixedDecimal { mantissa, scale })
        }
    }

    /// Zero, at scale 0.
    pub fn zero() -> (d: FixedDecimal)
        ensures
            d@ == (DecimalFraction { mantissa: 0, scale: 0 }),
    {
        FixedDecimal { mantissa: 0, scale: 0 }
    }

    /// One, at scale 0.
    pub fn one() -> (d: FixedDecimal)
        ensures
            d@ == (DecimalFraction { mantissa: 1, scale: 0 }),
    {
        FixedDecimal { mantissa: 1, scale: 0 }
    }

    pub fn mantissa(&self) -> (m: i128)
        ensures
            m == self@.mantissa,
            self@.representable(),
    {
        proof {
            use_type_invariant(self);
        }
        self.mantissa
    }

    pub fn scale(&self) -> (s: u32)
        ensures
            s == self@.scale,
            self@.representable(),
    {
        proof {
            use_type_invariant(self);
        }
        self.scale
    }

    pub fn is_zero(&self) -> (b: bool)
        ensures
            b == self@.is_zero(),
    {
        self.mantissa == 0
    }

    /// The number with the opposite sign, at the same scale.
    pub fn negated(&self) -> (d: FixedDecimal)
        ensures
            d@ == self@.negated(),
    {
        proof {
            use_type_invariant(self);
        }
        FixedDecimal { mantissa: -self.mantissa, scale: self.scale }
    }

    /// The sum, or `None` where it overflows.
    pub fn checked_add(&self, other: &FixedDecimal) -> (r: Option<FixedDecimal>)
        ensures
            match r {
                Some(d) => self@.plus(other@) == Some(d@),
                None => self@.plus(other@) is None,
            },
    {
        proof {
            use_type_invariant(self);
            use_type_invariant(other);
        }
        match decimal_checked_add(self.mantissa, self.scale, other.mantissa, other.scale) {
            Some((mantissa, scale)) => Some(FixedDecimal { mantissa, scale }),
            None => None,
        }
    }

    /// The difference, or `None` where it overflows.
    pub fn checked_sub(&self, other: &FixedDecimal) -> (r: Option<FixedDecimal>)
        ensures
            match r {
                Some(d) => self@.minus(other@) == Some(d@),
                None => self@.minus(other@) is None,
            },
    {
        proof {
            use_type_invariant(self);
            use_type_invariant(other);
        }
        match decimal_checked_sub(self.mantissa, self.scale, other.mantissa, other.scale) {
            Some((mantissa, scale)) => Some(FixedDecimal { mantissa, scale }),
            None => None,
        }
    }

    /// The decimal that holds `fraction`, where it is representable.
    pub closed spec fn from_fraction(fraction: DecimalFraction) -> FixedDecimal {
        FixedDecimal { mantissa: fraction.mantissa as i128, scale: fraction.scale as u32 }
    }

    /// A decimal is the one that holds its own value.
    pub broadcast proof fn lemma_from_own_fraction(self)
        ensures
            #[trigger] FixedDecimal::from_fraction(self@) == self,
    {
    }

    /// A representable value is the value of the decimal that holds it.
    pub broadcast proof fn lemma_fraction_of_decimal(fraction: DecimalFraction)
        requires
            fraction.representable(),
        ensures
            #[trigger] FixedDecimal::from_fraction(fraction)@ == fraction,
    {
    }

    /// The number in decimal notation, with all the digits of its scale.
    pub fn to_text(&self) -> (text: String)
        ensures
            text@ == self@.text(),
    {
        proof {
            use_type_invariant(self);
        }
        decimal_to_string(self.mantissa, self.scale)
    }

    /// Whether `self` is the smaller number.
    pub fn is_less_than(&self, other: &FixedDecimal) -> (b: bool)
        ensures
            b == self@.less_than(other@),
    {
        proof {
            use_type_invariant(self);
            use_type_invariant(other);
        }
        decimal_less(self.mantissa, self.scale, other.mantissa, other.scale)
    }

    /// Whether both are the same number.
    pub fn has_same_value(&self, other: &FixedDecimal) -> (b: bool)
        ensures
            b == self@.same_value(other@),
    {
        proof {
            use_type_invariant(self);
            use_type_invariant(other);
        }
        decimal_equal(self.mantissa, self.scale, other.mantissa, other.scale)
    }
}

impl PartialEq for FixedDecimal {
    /// Equality of the numbers, whatever their scales.
    fn eq(&self, other: &FixedDecimal) -> (b: bool) {
        self.has_same_value(other)
    }
}

impl vstd::std_specs::cmp::PartialEqSpecImpl for FixedDecimal {
    open spec fn obeys_eq_spec() -> bool {
        true
    }

    open spec fn eq_spec(&self, other: &FixedDecimal) -> bool {
        self@.same_value(other@)
    }
}

impl Eq for FixedDecimal {

}

} // verus!
