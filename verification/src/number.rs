//! Exact decimal numbers.
//!
//! A float literal such as `1.25` is held as an integer mantissa and a base
//! ten scale (`125` over scale `2`), so every comparison and every addition
//! the evaluator performs is exact integer arithmetic: mixed integer/float
//! promotion loses no precision.  The scale is bounded by a type invariant so
//! that all the arithmetic fits comfortably in 128 bits.

use vstd::prelude::*;
use vstd::arithmetic::power::{pow, lemma_pow0, lemma_pow_increases, lemma_pow_positive};

verus! {

/// The largest scale (number of base-ten fraction digits) a `Decimal` may
/// carry.
pub const MAX_SCALE: u32 = 18;

/// Ten to the power `e`.
pub open spec fn pow10(e: nat) -> nat {
    pow(10, e) as nat
}

pub proof fn lemma_pow10_pos(e: nat)
    ensures
        pow10(e) >= 1,
{
    lemma_pow_positive(10, e);
}

pub proof fn lemma_pow10_increases(e1: nat, e2: nat)
    requires
        e1 <= e2,
    ensures
        pow10(e1) <= pow10(e2),
{
    lemma_pow_positive(10, e1);
    lemma_pow_positive(10, e2);
    lemma_pow_increases(10, e1, e2);
}

/// `pow10(0)` is one.
pub proof fn lemma_pow10_zero()
    ensures
        pow10(0) == 1,
{
    lemma_pow0(10);
}

/// `pow10(8)` written out, for scaling duration components.
pub proof fn lemma_pow10_8()
    ensures
        pow10(8) == 100000000,
{
    reveal_with_fuel(pow, 10);
    assert(pow(10, 8) == 100000000);
}

/// `pow10(18)` written out, so callers can bound mantissa products.
pub proof fn lemma_pow10_18()
    ensures
        pow10(18) == 1000000000000000000,
{
    reveal_with_fuel(pow, 20);
    assert(pow(10, 18) == 1000000000000000000);
}

/// Unfolding step: `pow10(e + 1) == 10 * pow10(e)`.
pub proof fn lemma_pow10_step(e: nat)
    ensures
        pow10(e + 1) == 10 * pow10(e),
{
    lemma_pow_positive(10, e);
    lemma_pow_positive(10, e + 1);
    assert(pow(10, e + 1) == 10 * pow(10, e)) by {
        reveal_with_fuel(pow, 2);
    }
}

/// The numeric order on scaled mantissas: `u1 / 10^s1 == u2 / 10^s2` exactly
/// when the cross-scaled mantissas agree.
pub open spec fn num_eq(u1: int, s1: nat, u2: int, s2: nat) -> bool {
    u1 * pow10(s2) == u2 * pow10(s1)
}

pub open spec fn num_lt(u1: int, s1: nat, u2: int, s2: nat) -> bool {
    u1 * pow10(s2) < u2 * pow10(s1)
}

pub open spec fn num_le(u1: int, s1: nat, u2: int, s2: nat) -> bool {
    u1 * pow10(s2) <= u2 * pow10(s1)
}

pub open spec fn max_scale(s1: nat, s2: nat) -> nat {
    if s1 >= s2 {
        s1
    } else {
        s2
    }
}

/// The mantissa of the exact sum of two scaled mantissas, written at the
/// larger of the two scales.
pub open spec fn sum_units(u1: int, s1: nat, u2: int, s2: nat) -> int {
    u1 * pow10((max_scale(s1, s2) - s1) as nat) + u2 * pow10((max_scale(s1, s2) - s2) as nat)
}

/// The mantissa of the exact difference of two scaled mantissas, at the
/// larger of the two scales.
pub open spec fn diff_units(u1: int, s1: nat, u2: int, s2: nat) -> int {
    u1 * pow10((max_scale(s1, s2) - s1) as nat) - u2 * pow10((max_scale(s1, s2) - s2) as nat)
}

/// An exact decimal: the value `units / 10^scale`.
#[derive(Clone, Copy, Debug)]
pub struct Decimal {
    units: i64,
    scale: u32,
}

/// `|x| <= bx` and `0 <= y <= by` bound the product `x * y` by `bx * by`.
proof fn lemma_mul_bound(x: int, y: int, bx: int, by: int)
    requires
        -bx <= x <= bx,
        0 <= y <= by,
        0 <= bx,
    ensures
        -(bx * by) <= x * y <= bx * by,
{
    assert(-(bx * by) <= x * y <= bx * by) by (nonlinear_arith)
        requires
            -bx <= x <= bx,
            0 <= y <= by,
            0 <= bx,
    ;
}

/// The product of a mantissa and a power of ten up to `pow10(18)` stays far
/// inside the 128-bit range.
proof fn lemma_units_times_pow10_bound(u: int, e: nat)
    requires
        i64::MIN <= u <= i64::MAX,
        e <= 18,
    ensures
        -0x8000_0000_0000_0000_0000_0000_0000_0000 < u * pow10(e) * 2
            < 0x8000_0000_0000_0000_0000_0000_0000_0000,
        -0x8000_0000_0000_0000_0000_0000_0000_0000 < u * pow10(e)
            < 0x8000_0000_0000_0000_0000_0000_0000_0000,
{
    lemma_pow10_pos(e);
    lemma_pow10_increases(e, 18);
    lemma_pow10_18();
    lemma_mul_bound(u, pow10(e) as int, 0x8000_0000_0000_0000, 1000000000000000000);
}

impl Decimal {
    /// Every decimal the library builds keeps its scale within bounds.
    #[verifier::type_invariant]
    spec fn type_inv(self) -> bool {
        self.scale <= MAX_SCALE
    }

    /// The mantissa.
    pub closed spec fn spec_units(self) -> int {
        self.units as int
    }

    /// The number of base-ten fraction digits.
    pub closed spec fn spec_scale(self) -> nat {
        self.scale as nat
    }

    /// The mantissa is a 64-bit integer, whatever the value.
    pub proof fn lemma_units_range(self)
        ensures
            i64::MIN <= self.spec_units() <= i64::MAX,
    {
    }

    pub fn new(units: i64, scale: u32) -> (r: Decimal)
        requires
            scale <= MAX_SCALE,
        ensures
            r.spec_units() == units,
            r.spec_scale() == scale,
    {
        Decimal { units, scale }
    }

    /// The decimal with the exact value of an integer.
    pub fn from_int(i: i64) -> (r: Decimal)
        ensures
            r.spec_units() == i,
            r.spec_scale() == 0,
    {
        Decimal { units: i, scale: 0 }
    }

    pub fn units(&self) -> (r: i64)
        ensures
            r == self.spec_units(),
    {
        self.units
    }

    pub fn scale(&self) -> (r: u32)
        ensures
            r == self.spec_scale(),
            r <= MAX_SCALE,
    {
        proof {
            use_type_invariant(self);
        }
        self.scale
    }

    /// A decimal is zero exactly when its mantissa is zero, whatever the
    /// scale.
    pub fn is_zero(&self) -> (r: bool)
        ensures
            r == (self.spec_units() == 0),
    {
        self.units == 0
    }

    /// Numeric equality: `1.50` equals `1.5`.
    pub fn eq_value(&self, other: &Decimal) -> (r: bool)
        ensures
            r == num_eq(self.spec_units(), self.spec_scale(), other.spec_units(),
            other.spec_scale()),
    {
        proof {
            use_type_invariant(self);
            use_type_invariant(other);
            lemma_units_times_pow10_bound(self.units as int, other.scale as nat);
            lemma_units_times_pow10_bound(other.units as int, self.scale as nat);
        }
        let pa: i128 = pow10_i128(other.scale);
        let pb: i128 = pow10_i128(self.scale);
        let a: i128 = (self.units as i128) * pa;
        let b: i128 = (other.units as i128) * pb;
        a == b
    }

    /// Numeric strict order.
    pub fn lt_value(&self, other: &Decimal) -> (r: bool)
        ensures
            r == num_lt(self.spec_units(), self.spec_scale(), other.spec_units(),
            other.spec_scale()),
    {
        proof {
            use_type_invariant(self);
            use_type_invariant(other);
            lemma_units_times_pow10_bound(self.units as int, other.scale as nat);
            lemma_units_times_pow10_bound(other.units as int, self.scale as nat);
        }
        let pa: i128 = pow10_i128(other.scale);
        let pb: i128 = pow10_i128(self.scale);
        let a: i128 = (self.units as i128) * pa;
        let b: i128 = (other.units as i128) * pb;
        a < b
    }

    /// Numeric order, allowing equality.
    pub fn le_value(&self, other: &Decimal) -> (r: bool)
        ensures
            r == num_le(self.spec_units(), self.spec_scale(), other.spec_units(),
            other.spec_scale()),
    {
        proof {
            use_type_invariant(self);
            use_type_invariant(other);
            lemma_units_times_pow10_bound(self.units as int, other.scale as nat);
            lemma_units_times_pow10_bound(other.units as int, self.scale as nat);
        }
        let pa: i128 = pow10_i128(other.scale);
        let pb: i128 = pow10_i128(self.scale);
        let a: i128 = (self.units as i128) * pa;
        let b: i128 = (other.units as i128) * pb;
        a <= b
    }

    /// The exact sum, if its mantissa fits; `None` reports overflow.
    pub fn checked_add(&self, other: &Decimal) -> (r: Option<Decimal>)
        ensures
            match r {
                Some(d) => {
                    &&& d.spec_scale() == max_scale(self.spec_scale(), other.spec_scale())
                    &&& d.spec_units() == sum_units(self.spec_units(), self.spec_scale(),
                    other.spec_units(), other.spec_scale())
                },
                None => !(i64::MIN <= sum_units(self.spec_units(), self.spec_scale(),
                other.spec_units(), other.spec_scale()) <= i64::MAX),
            },
    {
        proof {
            use_type_invariant(self);
            use_type_invariant(other);
        }
        let m: u32 = if self.scale >= other.scale {
            self.scale
        } else {
            other.scale
        };
        proof {
            lemma_units_times_pow10_bound(self.units as int, (m - self.scale) as nat);
            lemma_units_times_pow10_bound(other.units as int, (m - other.scale) as nat);
        }
        let pa: i128 = pow10_i128(m - self.scale);
        let pb: i128 = pow10_i128(m - other.scale);
        let a: i128 = (self.units as i128) * pa;
        let b: i128 = (other.units as i128) * pb;
        let total: i128 = a + b;
        if total >= i64::MIN as i128 && total <= i64::MAX as i128 {
            Some(Decimal { units: total as i64, scale: m })
        } else {
            None
        }
    }

    /// The exact difference, if its mantissa fits; `None` reports overflow.
    pub fn checked_sub(&self, other: &Decimal) -> (r: Option<Decimal>)
        ensures
            match r {
                Some(d) => {
                    &&& d.spec_scale() == max_scale(self.spec_scale(), other.spec_scale())
                    &&& d.spec_units() == diff_units(self.spec_units(), self.spec_scale(),
                    other.spec_units(), other.spec_scale())
                },
                None => !(i64::MIN <= diff_units(self.spec_units(), self.spec_scale(),
                other.spec_units(), other.spec_scale()) <= i64::MAX),
            },
    {
        proof {
            use_type_invariant(self);
            use_type_invariant(other);
        }
        let m: u32 = if self.scale >= other.scale {
            self.scale
        } else {
            other.scale
        };
        proof {
            lemma_units_times_pow10_bound(self.units as int, (m - self.scale) as nat);
            lemma_units_times_pow10_bound(other.units as int, (m - other.scale) as nat);
        }
        let pa: i128 = pow10_i128(m - self.scale);
        let pb: i128 = pow10_i128(m - other.scale);
        let a: i128 = (self.units as i128) * pa;
        let b: i128 = (other.units as i128) * pb;
        let total: i128 = a - b;
        if total >= i64::MIN as i128 && total <= i64::MAX as i128 {
            Some(Decimal { units: total as i64, scale: m })
        } else {
            None
        }
    }

    /// The negated value, unless the mantissa is the one integer whose
    /// negation does not fit.
    pub fn checked_neg(&self) -> (r: Option<Decimal>)
        ensures
            match r {
                Some(d) => d.spec_units() == -self.spec_units() && d.spec_scale()
                    == self.spec_scale(),
                None => self.spec_units() == i64::MIN,
            },
    {
        proof {
            use_type_invariant(self);
        }
        if self.units == i64::MIN {
            None
        } else {
            Some(Decimal { units: -self.units, scale: self.scale })
        }
    }
}

/// Powers of ten multiply as their exponents add.
pub proof fn lemma_pow10_adds(x: nat, y: nat)
    ensures
        pow10(x + y) == pow10(x) * pow10(y),
{
    lemma_pow_positive(10, x);
    lemma_pow_positive(10, y);
    lemma_pow_positive(10, x + y);
    vstd::arithmetic::power::lemma_pow_adds(10, x, y);
}

/// Combining an integer part below `pow10(x)` with a fraction part below
/// `pow10(y)` stays below `pow10(x + y)`.
pub proof fn lemma_digits_combine(a: nat, b: nat, x: nat, y: nat)
    requires
        a < pow10(x),
        b < pow10(y),
    ensures
        a * pow10(y) + b < pow10(x + y),
{
    lemma_pow10_adds(x, y);
    lemma_pow10_pos(x);
    lemma_pow10_pos(y);
    assert(a * pow10(y) <= (pow10(x) - 1) * pow10(y)) by (nonlinear_arith)
        requires
            a <= pow10(x) - 1,
            pow10(y) >= 1,
    ;
    assert((pow10(x) - 1) * pow10(y) == pow10(x) * pow10(y) - pow10(y)) by (nonlinear_arith);
}

/// `10^e` as a 64-bit integer, for assembling literal mantissas.
pub fn pow10_u64(e: u32) -> (r: u64)
    requires
        e <= MAX_SCALE,
    ensures
        r == pow10(e as nat),
        1 <= r <= 1000000000000000000,
{
    proof {
        lemma_pow0(10);
        lemma_pow10_pos(e as nat);
        lemma_pow10_increases(e as nat, 18);
        lemma_pow10_18();
    }
    let mut r: u64 = 1;
    let mut i: u32 = 0;
    while i < e
        invariant
            i <= e,
            e <= MAX_SCALE,
            r == pow10(i as nat),
            1 <= r <= 1000000000000000000,
        decreases e - i,
    {
        proof {
            lemma_pow_positive(10, i as nat);
            lemma_pow_positive(10, (i + 1) as nat);
            lemma_pow10_increases((i + 1) as nat, 18);
            lemma_pow10_18();
            assert(pow(10, (i + 1) as nat) == 10 * pow(10, i as nat)) by {
                reveal_with_fuel(pow, 2);
            }
            assert(pow10((i + 1) as nat) == 10 * pow10(i as nat));
        }
        r = r * 10;
        i = i + 1;
    }
    r
}

/// `10^e` as a 128-bit integer, for the cross-scaling products.
pub fn pow10_i128(e: u32) -> (r: i128)
    requires
        e <= MAX_SCALE,
    ensures
        r == pow10(e as nat),
        1 <= r <= 1000000000000000000,
{
    pow10_u64(e) as i128
}

} // verus!
