//! Fixed-point numbers with 32 fractional bits.
//!
//! Every coordinate, extent, slope and length of the engine is a [`Scalar`]:
//! a signed 64-bit count of units of 2^-32. Arithmetic never fails. A result
//! that does not fit is clamped to the nearest representable value; products,
//! quotients and roots are rounded toward zero.

use vstd::prelude::*;

verus! {

/// The raw value of the scalar one: 2^32.
pub const ONE_RAW: i64 = 4294967296;

/// The absolute value of an integer.
pub open spec fn abs(a: int) -> int {
    if a < 0 {
        -a
    } else {
        a
    }
}

/// `v` brought into the range of raw values.
pub open spec fn clamp(v: int) -> int {
    if v < i64::MIN {
        i64::MIN as int
    } else if v > i64::MAX {
        i64::MAX as int
    } else {
        v
    }
}

/// The quotient of `a` by `b`, rounded toward zero.
pub open spec fn trunc_div(a: int, b: int) -> int
    recommends
        b != 0,
{
    if a >= 0 && b > 0 {
        a / b
    } else if a < 0 && b > 0 {
        -((-a) / b)
    } else if a >= 0 {
        -(a / (-b))
    } else {
        (-a) / (-b)
    }
}

/// Raw value of the sum of two scalars.
pub open spec fn sum(a: int, b: int) -> int {
    clamp(a + b)
}

/// Raw value of the difference of two scalars.
pub open spec fn difference(a: int, b: int) -> int {
    clamp(a - b)
}

/// Raw value of the negation of a scalar.
pub open spec fn negation(a: int) -> int {
    clamp(-a)
}

/// Raw value of the product of two scalars.
pub open spec fn product(a: int, b: int) -> int {
    clamp(trunc_div(a * b, ONE_RAW as int))
}

/// Raw value of the quotient of two scalars.
pub open spec fn quotient(a: int, b: int) -> int
    recommends
        b != 0,
{
    clamp(trunc_div(a * ONE_RAW, b))
}

/// The whole part of a scalar as an unsigned number: negative scalars give 0.
pub open spec fn whole_part(a: int) -> int {
    if a < 0 {
        0
    } else {
        a / (ONE_RAW as int)
    }
}

/// `r` is the square root of `n`, rounded down.
pub open spec fn is_floor_root(n: int, r: int) -> bool {
    0 <= r && r * r <= n < (r + 1) * (r + 1)
}

/// The square root of `n`, rounded down (for `n >= 0`).
pub open spec fn floor_root_of(n: int) -> int {
    choose|r: int| is_floor_root(n, r)
}

/// The raw length of the vector with raw components `x` and `y`: the root of
/// `x² + y²` rounded down, or the largest raw value where the root exceeds
/// it.
pub open spec fn length(x: int, y: int) -> int {
    clamp(floor_root_of(x * x + y * y))
}

/// A fixed-point number: `raw` units of 2^-32.
#[derive(Clone, Copy, Debug, PartialEq, Eq, Structural)]
pub struct Scalar {
    pub raw: i64,
}

impl View for Scalar {
    type V = int;

    /// The raw value: the number itself multiplied by 2^32.
    open spec fn view(&self) -> int {
        self.raw as int
    }
}

/// The absolute value of a product is the product of the absolute values,
/// and a product is negative exactly where its factors have different
/// signs.
pub proof fn lemma_abs_product(a: int, b: int)
    ensures
        abs(a * b) == abs(a) * abs(b),
        (a * b < 0) == (a != 0 && b != 0 && ((a < 0) != (b < 0))),
{
    assert(abs(a * b) == abs(a) * abs(b)) by (nonlinear_arith);
    assert((a * b < 0) == (a != 0 && b != 0 && ((a < 0) != (b < 0)))) by (nonlinear_arith);
}

/// What a truncating division leaves is less than the divisor, both taken
/// without sign.
pub proof fn lemma_trunc_div_remainder(a: int, b: int)
    requires
        b != 0,
    ensures
        abs(a - b * trunc_div(a, b)) < abs(b),
{
    let x = abs(a);
    let d = abs(b);
    vstd::arithmetic::div_mod::lemma_fundamental_div_mod(x, d);
    vstd::arithmetic::div_mod::lemma_mod_bound(x, d);
    let q = x / d;
    let r = x % d;
    assert(x == d * q + r);
    if a >= 0 && b > 0 {
        assert(a - b * q == r);
    } else if a < 0 && b > 0 {
        assert(a - b * (-q) == -r) by (nonlinear_arith)
            requires
                -a == b * q + r,
        ;
    } else if a >= 0 {
        assert(a - b * (-q) == r) by (nonlinear_arith)
            requires
                a == (-b) * q + r,
        ;
    } else {
        assert(a - b * q == -r) by (nonlinear_arith)
            requires
                -a == (-b) * q + r,
        ;
    }
}

/// A floor root is unique.
pub proof fn lemma_floor_root_unique(n: int, r: int, s: int)
    requires
        is_floor_root(n, r),
        is_floor_root(n, s),
    ensures
        r == s,
{
    if r < s {
        assert((r + 1) * (r + 1) <= s * s) by (nonlinear_arith)
            requires
                0 <= r,
                r + 1 <= s,
        ;
    } else if s < r {
        assert((s + 1) * (s + 1) <= r * r) by (nonlinear_arith)
            requires
                0 <= s,
                s + 1 <= r,
        ;
    }
}

/// Every natural number has a floor root.
pub proof fn lemma_floor_root_exists(n: nat)
    ensures
        is_floor_root(n as int, floor_root_of(n as int)),
    decreases n,
{
    if n == 0 {
        assert(is_floor_root(0, 0));
    } else {
        lemma_floor_root_exists((n - 1) as nat);
        let r = floor_root_of(n - 1);
        if n < (r + 1) * (r + 1) {
            assert(is_floor_root(n as int, r));
        } else {
            assert((r + 1) * (r + 1) <= n < (r + 2) * (r + 2)) by (nonlinear_arith)
                requires
                    0 <= r,
                    n - 1 < (r + 1) * (r + 1),
                    n >= (r + 1) * (r + 1),
            ;
            assert(is_floor_root(n as int, r + 1));
        }
    }
}

/// A vector with a component other than zero has a length other than zero.
pub proof fn lemma_length_positive(x: int, y: int)
    requires
        x != 0 || y != 0,
    ensures
        length(x, y) > 0,
{
    let n = x * x + y * y;
    assert(n >= 1) by (nonlinear_arith)
        requires
            n == x * x + y * y,
            x != 0 || y != 0,
    ;
    lemma_floor_root_exists(n as nat);
}

fn magnitude(a: i64) -> (m: u128)
    ensures
        m == abs(a as int),
{
    if a < 0 {
        let wide: i128 = -(a as i128);
        wide as u128
    } else {
        a as u128
    }
}

fn clamp_wide(v: i128) -> (r: i64)
    ensures
        r == clamp(v as int),
{
    if v < i64::MIN as i128 {
        i64::MIN
    } else if v > i64::MAX as i128 {
        i64::MAX
    } else {
        v as i64
    }
}

fn clamp_signed(negative: bool, m: u128) -> (r: i64)
    ensures
        r == clamp(
            if negative {
                -(m as int)
            } else {
                m as int
            },
        ),
{
    if negative {
        if m > 9223372036854775808u128 {
            i64::MIN
        } else {
            let wide: i128 = -(m as i128);
            wide as i64
        }
    } else {
        if m > 9223372036854775807u128 {
            i64::MAX
        } else {
            m as i64
        }
    }
}

/// The square root of `n`, rounded down.
fn floor_root(n: u128) -> (r: u128)
    ensures
        is_floor_root(n as int, r as int),
        r < 0x1_0000_0000_0000_0000,
{
    let mut low: u128 = 0;
    let mut high: u128 = 0x1_0000_0000_0000_0000;
    assert(0x1_0000_0000_0000_0000int * 0x1_0000_0000_0000_0000int > u128::MAX);
    while high - low > 1
        invariant
            low < high <= 0x1_0000_0000_0000_0000,
            low * low <= n < high * high,
        decreases high - low,
    {
        let mid: u128 = low + (high - low) / 2;
        assert(mid * mid < 0x1_0000_0000_0000_0000int * 0x1_0000_0000_0000_0000int)
            by (nonlinear_arith)
            requires
                0 <= mid < 0x1_0000_0000_0000_0000int,
        ;
        assert(0x1_0000_0000_0000_0000int * 0x1_0000_0000_0000_0000int
            == 0x1_0000_0000_0000_0000_0000_0000_0000_0000int);
        if mid * mid <= n {
            low = mid;
        } else {
            high = mid;
        }
    }
    low
}

impl Scalar {
    /// The sum, as a value of specifications.
    pub open spec fn spec_plus(self, other: Scalar) -> Scalar {
        Scalar { raw: sum(self@, other@) as i64 }
    }

    /// The difference, as a value of specifications.
    pub open spec fn spec_minus(self, other: Scalar) -> Scalar {
        Scalar { raw: difference(self@, other@) as i64 }
    }

    /// The negation, as a value of specifications.
    pub open spec fn spec_negated(self) -> Scalar {
        Scalar { raw: negation(self@) as i64 }
    }

    /// The product, as a value of specifications.
    pub open spec fn spec_times(self, other: Scalar) -> Scalar {
        Scalar { raw: product(self@, other@) as i64 }
    }

    /// The quotient, as a value of specifications.
    pub open spec fn spec_divided_by(self, divisor: Scalar) -> Scalar
        recommends
            divisor@ != 0,
    {
        Scalar { raw: quotient(self@, divisor@) as i64 }
    }

    /// The length of the vector `(x, y)`, as a value of specifications.
    pub open spec fn spec_hypotenuse(x: Scalar, y: Scalar) -> Scalar {
        Scalar { raw: length(x@, y@) as i64 }
    }

    /// The scalar with the given raw value.
    pub fn from_raw(raw: i64) -> (r: Scalar)
        ensures
            r@ == raw,
    {
        Scalar { raw }
    }

    /// The raw value, in units of 2^-32.
    pub fn to_raw(&self) -> (r: i64)
        ensures
            r == self@,
    {
        self.raw
    }

    /// The scalar that stands for the whole number `n`.
    pub fn from_int(n: i32) -> (r: Scalar)
        ensures
            r@ == n * ONE_RAW,
    {
        assert(i64::MIN <= n * 4294967296 <= i64::MAX) by (nonlinear_arith)
            requires
                -2147483648 <= n <= 2147483647,
        ;
        let wide: i128 = (n as i128) * 4294967296i128;
        Scalar { raw: wide as i64 }
    }

    /// Zero.
    pub fn zero() -> (r: Scalar)
        ensures
            r@ == 0,
    {
        Scalar { raw: 0 }
    }

    /// One.
    pub fn one() -> (r: Scalar)
        ensures
            r@ == ONE_RAW,
    {
        Scalar { raw: ONE_RAW }
    }

    /// `self + other`, clamped.
    pub fn plus(self, other: Scalar) -> (r: Scalar)
        ensures
            r == self.spec_plus(other),
    {
        Scalar { raw: clamp_wide(self.raw as i128 + other.raw as i128) }
    }

    /// `self - other`, clamped.
    pub fn minus(self, other: Scalar) -> (r: Scalar)
        ensures
            r == self.spec_minus(other),
    {
        Scalar { raw: clamp_wide(self.raw as i128 - other.raw as i128) }
    }

    /// `-self`, clamped.
    pub fn negated(self) -> (r: Scalar)
        ensures
            r == self.spec_negated(),
    {
        Scalar { raw: clamp_wide(-(self.raw as i128)) }
    }

    /// `self * other`, rounded toward zero and clamped.
    pub fn times(self, other: Scalar) -> (r: Scalar)
        ensures
            r == self.spec_times(other),
    {
        let a: u128 = magnitude(self.raw);
        let b: u128 = magnitude(other.raw);
        assert(a * b <= 0x8000_0000_0000_0000int * 0x8000_0000_0000_0000int) by (nonlinear_arith)
            requires
                0 <= a <= 0x8000_0000_0000_0000int,
                0 <= b <= 0x8000_0000_0000_0000int,
        ;
        assert(0x8000_0000_0000_0000int * 0x8000_0000_0000_0000int < u128::MAX);
        let m: u128 = (a * b) / (ONE_RAW as u128);
        let negative: bool = (self.raw < 0) != (other.raw < 0);
        proof {
            lemma_abs_product(self@, other@);
            assert(a * b == abs(self@ * other@));
            assert(m == abs(self@ * other@) / (ONE_RAW as int));
            assert(abs(ONE_RAW as int) == ONE_RAW);
        }
        Scalar { raw: clamp_signed(negative, m) }
    }

    /// `self / divisor`, rounded toward zero and clamped.
    pub fn divided_by(self, divisor: Scalar) -> (r: Scalar)
        requires
            divisor@ != 0,
        ensures
            r == self.spec_divided_by(divisor),
    {
        let a: u128 = magnitude(self.raw);
        let b: u128 = magnitude(divisor.raw);
        assert(a * 4294967296 <= 0x8000_0000_0000_0000int * 4294967296) by (nonlinear_arith)
            requires
                0 <= a <= 0x8000_0000_0000_0000int,
        ;
        let m: u128 = (a * (ONE_RAW as u128)) / b;
        let negative: bool = (self.raw < 0) != (divisor.raw < 0);
        proof {
            lemma_abs_product(self@, ONE_RAW as int);
            assert(a * (ONE_RAW as u128) == abs(self@ * ONE_RAW));
            assert(m == abs(self@ * ONE_RAW) / abs(divisor@));
        }
        Scalar { raw: clamp_signed(negative, m) }
    }

    /// Whether `self` is less than `other`.
    pub fn less_than(self, other: Scalar) -> (r: bool)
        ensures
            r == (self@ < other@),
    {
        self.raw < other.raw
    }

    /// Whether `self` is at most `other`.
    pub fn at_most(self, other: Scalar) -> (r: bool)
        ensures
            r == (self@ <= other@),
    {
        self.raw <= other.raw
    }

    /// Whether `self` is zero.
    pub fn is_zero(self) -> (r: bool)
        ensures
            r == (self@ == 0),
    {
        self.raw == 0
    }

    /// The scalar truncated to a whole number: its fraction is dropped, so
    /// that -0.5 gives 0 and -3 stays -3.
    pub fn truncated_to_whole(self) -> (r: i64)
        ensures
            r == trunc_div(self@, ONE_RAW as int),
    {
        let whole: u128 = magnitude(self.raw) / (ONE_RAW as u128);
        clamp_signed(self.raw < 0, whole)
    }

    /// The whole part as an unsigned number; a negative scalar gives 0.
    pub fn truncated(self) -> (r: u32)
        ensures
            r == whole_part(self@),
    {
        if self.raw < 0 {
            0
        } else {
            (self.raw / ONE_RAW) as u32
        }
    }

    /// The length of the vector `(x, y)`: the root of `x² + y²`, rounded
    /// down and clamped.
    pub fn hypotenuse(x: Scalar, y: Scalar) -> (r: Scalar)
        ensures
            r == Scalar::spec_hypotenuse(x, y),
    {
        let a: u128 = magnitude(x.raw);
        let b: u128 = magnitude(y.raw);
        assert(a * a <= 0x8000_0000_0000_0000int * 0x8000_0000_0000_0000int) by (nonlinear_arith)
            requires
                0 <= a <= 0x8000_0000_0000_0000int,
        ;
        assert(b * b <= 0x8000_0000_0000_0000int * 0x8000_0000_0000_0000int) by (nonlinear_arith)
            requires
                0 <= b <= 0x8000_0000_0000_0000int,
        ;
        assert(0x8000_0000_0000_0000int * 0x8000_0000_0000_0000int
            == 0x4000_0000_0000_0000_0000_0000_0000_0000int);
        assert(a * a == x@ * x@ && b * b == y@ * y@) by (nonlinear_arith)
            requires
                a == abs(x@),
                b == abs(y@),
        ;
        let n: u128 = a * a + b * b;
        let root: u128 = floor_root(n);
        proof {
            lemma_floor_root_unique(n as int, root as int, floor_root_of(n as int));
        }
        Scalar { raw: clamp_signed(false, root) }
    }
}

} // verus!
