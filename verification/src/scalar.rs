//! The scalar capability hierarchy.
//!
//! [`Scalar`] is the base capability: ordering comparison, basic arithmetic
//! with explicit range preconditions, and the derived operations `min`,
//! `max`, `clamp` and `lerp`, whose tie-break and evaluation-order rules are
//! pinned down exactly by their contracts. [`SignedScalar`] adds negation and
//! the cubic curve formulas; [`IntScalar`] and [`IntUnique`] add the integer
//! logarithm.

use vstd::prelude::*;

verus! {

use vstd::arithmetic::div_mod::{lemma_div_decreases, lemma_div_non_zero, lemma_fundamental_div_mod};
use vstd::arithmetic::logarithm::{lemma_log0, lemma_log_s, log};
use vstd::arithmetic::mul::{lemma_mul_inequality, lemma_mul_is_associative};
use vstd::arithmetic::power::{lemma_pow_positive, pow};

/// The least value `a` and `b` compare to: `a` when `a < b`, else `b`.
pub open spec fn spec_min<T: Scalar>(a: T, b: T) -> T {
    if a.v() < b.v() {
        a
    } else {
        b
    }
}

/// The greatest value `a` and `b` compare to: `a` when `a > b`, else `b`.
pub open spec fn spec_max<T: Scalar>(a: T, b: T) -> T {
    if a.v() > b.v() {
        a
    } else {
        b
    }
}

/// `min` over mathematical integers.
pub open spec fn min_i(a: int, b: int) -> int {
    if a < b {
        a
    } else {
        b
    }
}

/// `max` over mathematical integers.
pub open spec fn max_i(a: int, b: int) -> int {
    if a > b {
        a
    } else {
        b
    }
}

/// `clamp` over mathematical integers, in the same evaluation order as
/// [`spec_clamp`]: bounded above by `hi` first, then below by `lo`.
pub open spec fn clamp_i(val: int, lo: int, hi: int) -> int {
    max_i(min_i(val, hi), lo)
}

/// Linear interpolation over mathematical integers: `a + (b - a) * t`.
/// `t` is not clamped, so the formula extrapolates outside `[0, 1]`.
pub open spec fn lerp_i(a: int, b: int, t: int) -> int {
    a + (b - a) * t
}

/// Whether the mathematical integer `x` is representable in `T`.
pub open spec fn fits<T: Scalar>(x: int) -> bool {
    T::min_v() <= x <= T::max_v()
}

/// The base scalar capability: a numeric value with a mathematical view,
/// comparison, and arithmetic whose preconditions rule out overflow.
///
/// `min`, `max`, `clamp` and `lerp` have provided implementations whose
/// contracts every implementor must also satisfy.
pub trait Scalar: Sized + Copy {
    /// The mathematical value of this scalar.
    spec fn v(self) -> int;

    /// The least mathematical value representable in this type.
    spec fn min_v() -> int;

    /// The greatest mathematical value representable in this type.
    spec fn max_v() -> int;

    /// Every value of the type is representable, zero and one included.
    proof fn in_range(self)
        ensures
            Self::min_v() <= 0,
            1 <= Self::max_v(),
            Self::min_v() <= self.v() <= Self::max_v(),
    ;

    /// Strict `<` comparison.
    fn lt(self, other: Self) -> (r: bool)
        ensures
            r == (self.v() < other.v()),
    ;

    /// Strict `>` comparison.
    fn gt(self, other: Self) -> (r: bool)
        ensures
            r == (self.v() > other.v()),
    ;

    /// `==` comparison.
    fn eq_v(self, other: Self) -> (r: bool)
        ensures
            r == (self.v() == other.v()),
    ;

    /// The additive identity.
    fn zero() -> (r: Self)
        ensures
            r.v() == 0,
    ;

    /// The multiplicative identity.
    fn one() -> (r: Self)
        ensures
            r.v() == 1,
    ;

    /// Exact addition; the sum must be representable.
    fn add_v(self, other: Self) -> (r: Self)
        requires
            Self::min_v() <= self.v() + other.v() <= Self::max_v(),
        ensures
            r.v() == self.v() + other.v(),
    ;

    /// Exact subtraction; the difference must be representable.
    fn sub_v(self, other: Self) -> (r: Self)
        requires
            Self::min_v() <= self.v() - other.v() <= Self::max_v(),
        ensures
            r.v() == self.v() - other.v(),
    ;

    /// Exact multiplication; the product must be representable.
    fn mul_v(self, other: Self) -> (r: Self)
        requires
            Self::min_v() <= self.v() * other.v() <= Self::max_v(),
        ensures
            r.v() == self.v() * other.v(),
    ;

    /// Flooring division of non-negative values.
    fn div_v(self, other: Self) -> (r: Self)
        requires
            self.v() >= 0,
            other.v() >= 1,
        ensures
            r.v() == self.v() / other.v(),
    ;

    /// The minimum of two values, by explicit `<` comparison: `other` wins
    /// whenever `self < other` does not hold.
    fn min(self, other: Self) -> (r: Self)
        ensures
            r == (if self.v() < other.v() { self } else { other }),
            r.v() == min_i(self.v(), other.v()),
    {
        if self.lt(other) {
            self
        } else {
            other
        }
    }

    /// The maximum of two values, by explicit `>` comparison: `other` wins
    /// whenever `self > other` does not hold.
    fn max(self, other: Self) -> (r: Self)
        ensures
            r == (if self.v() > other.v() { self } else { other }),
            r.v() == max_i(self.v(), other.v()),
    {
        if self.gt(other) {
            self
        } else {
            other
        }
    }

    /// Clamps this value between `lo` and `hi`: first bounded above by `hi`
    /// via `min`, then bounded below by `lo` via `max`. With inverted bounds
    /// (`lo > hi`) the result is therefore `lo`.
    fn clamp(self, lo: Self, hi: Self) -> (r: Self)
        ensures
            r == (if min_i(self.v(), hi.v()) > lo.v() {
                if self.v() < hi.v() { self } else { hi }
            } else {
                lo
            }),
            r.v() == clamp_i(self.v(), lo.v(), hi.v()),
    {
        self.min(hi).max(lo)
    }

    /// Linear interpolation `self + (other - self) * t`; `t` is not clamped,
    /// so the curve extrapolates outside `[0, 1]`.
    fn lerp(self, other: Self, t: Self) -> (r: Self)
        requires
            Self::min_v() <= other.v() - self.v() <= Self::max_v(),
            Self::min_v() <= (other.v() - self.v()) * t.v() <= Self::max_v(),
            Self::min_v() <= self.v() + (other.v() - self.v()) * t.v() <= Self::max_v(),
        ensures
            r.v() == lerp_i(self.v(), other.v(), t.v()),
    {
        self.add_v(other.sub_v(self).mul_v(t))
    }
}

/// Law: `min` and `max` pick the same value exactly when the two values
/// compare equal; and when neither `a < b` nor `a > b` holds, both pick `b`.
pub proof fn lemma_min_max_agree_iff_eq<T: Scalar>(a: T, b: T)
    ensures
        (spec_min(a, b) == spec_max(a, b)) <==> (a.v() == b.v()),
        !(a.v() < b.v()) && !(a.v() > b.v()) ==> spec_min(a, b) == b && spec_max(a, b) == b,
{
}

/// Law: with well-ordered bounds, a clamped value lies within them, and a
/// value already within them is returned unchanged.
pub proof fn lemma_clamp_bounds(val: int, lo: int, hi: int)
    requires
        lo <= hi,
    ensures
        lo <= clamp_i(val, lo, hi) <= hi,
        lo <= val <= hi ==> clamp_i(val, lo, hi) == val,
{
}

/// Law: with inverted bounds (`lo > hi`), clamping resolves to `lo`, because
/// the value is bounded above by `hi` before it is bounded below by `lo`.
pub proof fn lemma_clamp_inverted_bounds(val: int, lo: int, hi: int)
    requires
        lo > hi,
    ensures
        clamp_i(val, lo, hi) == lo,
{
}

/// Law: linear interpolation starts at `a` for `t == 0` and reaches `b` at
/// `t == 1`.
pub proof fn lemma_lerp_endpoints(a: int, b: int)
    ensures
        lerp_i(a, b, 0) == a,
        lerp_i(a, b, 1) == b,
{
}

impl Scalar for i32 {
    open spec fn v(self) -> int {
        self as int
    }

    open spec fn min_v() -> int {
        i32::MIN as int
    }

    open spec fn max_v() -> int {
        i32::MAX as int
    }

    proof fn in_range(self) {
    }

    fn lt(self, other: Self) -> bool {
        self < other
    }

    fn gt(self, other: Self) -> bool {
        self > other
    }

    fn eq_v(self, other: Self) -> bool {
        self == other
    }

    fn zero() -> Self {
        0
    }

    fn one() -> Self {
        1
    }

    fn add_v(self, other: Self) -> Self {
        self + other
    }

    fn sub_v(self, other: Self) -> Self {
        self - other
    }

    fn mul_v(self, other: Self) -> Self {
        self * other
    }

    fn div_v(self, other: Self) -> Self {
        let q: u32 = (self as u32) / (other as u32);
        q as i32
    }
}

impl Scalar for u32 {
    open spec fn v(self) -> int {
        self as int
    }

    open spec fn min_v() -> int {
        0
    }

    open spec fn max_v() -> int {
        u32::MAX as int
    }

    proof fn in_range(self) {
    }

    fn lt(self, other: Self) -> bool {
        self < other
    }

    fn gt(self, other: Self) -> bool {
        self > other
    }

    fn eq_v(self, other: Self) -> bool {
        self == other
    }

    fn zero() -> Self {
        0
    }

    fn one() -> Self {
        1
    }

    fn add_v(self, other: Self) -> Self {
        self + other
    }

    fn sub_v(self, other: Self) -> Self {
        self - other
    }

    fn mul_v(self, other: Self) -> Self {
        self * other
    }

    fn div_v(self, other: Self) -> Self {
        self / other
    }
}

impl Scalar for u8 {
    open spec fn v(self) -> int {
        self as int
    }

    open spec fn min_v() -> int {
        0
    }

    open spec fn max_v() -> int {
        u8::MAX as int
    }

    proof fn in_range(self) {
    }

    fn lt(self, other: Self) -> bool {
        self < other
    }

    fn gt(self, other: Self) -> bool {
        self > other
    }

    fn eq_v(self, other: Self) -> bool {
        self == other
    }

    fn zero() -> Self {
        0
    }

    fn one() -> Self {
        1
    }

    fn add_v(self, other: Self) -> Self {
        self + other
    }

    fn sub_v(self, other: Self) -> Self {
        self - other
    }

    fn mul_v(self, other: Self) -> Self {
        self * other
    }

    fn div_v(self, other: Self) -> Self {
        self / other
    }
}

impl Scalar for u16 {
    open spec fn v(self) -> int {
        self as int
    }

    open spec fn min_v() -> int {
        0
    }

    open spec fn max_v() -> int {
        u16::MAX as int
    }

    proof fn in_range(self) {
    }

    fn lt(self, other: Self) -> bool {
        self < other
    }

    fn gt(self, other: Self) -> bool {
        self > other
    }

    fn eq_v(self, other: Self) -> bool {
        self == other
    }

    fn zero() -> Self {
        0
    }

    fn one() -> Self {
        1
    }

    fn add_v(self, other: Self) -> Self {
        self + other
    }

    fn sub_v(self, other: Self) -> Self {
        self - other
    }

    fn mul_v(self, other: Self) -> Self {
        self * other
    }

    fn div_v(self, other: Self) -> Self {
        self / other
    }
}

impl Scalar for u64 {
    open spec fn v(self) -> int {
        self as int
    }

    open spec fn min_v() -> int {
        0
    }

    open spec fn max_v() -> int {
        u64::MAX as int
    }

    proof fn in_range(self) {
    }

    fn lt(self, other: Self) -> bool {
        self < other
    }

    fn gt(self, other: Self) -> bool {
        self > other
    }

    fn eq_v(self, other: Self) -> bool {
        self == other
    }

    fn zero() -> Self {
        0
    }

    fn one() -> Self {
        1
    }

    fn add_v(self, other: Self) -> Self {
        self + other
    }

    fn sub_v(self, other: Self) -> Self {
        self - other
    }

    fn mul_v(self, other: Self) -> Self {
        self * other
    }

    fn div_v(self, other: Self) -> Self {
        self / other
    }
}

impl Scalar for u128 {
    open spec fn v(self) -> int {
        self as int
    }

    open spec fn min_v() -> int {
        0
    }

    open spec fn max_v() -> int {
        u128::MAX as int
    }

    proof fn in_range(self) {
    }

    fn lt(self, other: Self) -> bool {
        self < other
    }

    fn gt(self, other: Self) -> bool {
        self > other
    }

    fn eq_v(self, other: Self) -> bool {
        self == other
    }

    fn zero() -> Self {
        0
    }

    fn one() -> Self {
        1
    }

    fn add_v(self, other: Self) -> Self {
        self + other
    }

    fn sub_v(self, other: Self) -> Self {
        self - other
    }

    fn mul_v(self, other: Self) -> Self {
        self * other
    }

    fn div_v(self, other: Self) -> Self {
        self / other
    }
}

impl Scalar for usize {
    open spec fn v(self) -> int {
        self as int
    }

    open spec fn min_v() -> int {
        0
    }

    open spec fn max_v() -> int {
        usize::MAX as int
    }

    proof fn in_range(self) {
    }

    fn lt(self, other: Self) -> bool {
        self < other
    }

    fn gt(self, other: Self) -> bool {
        self > other
    }

    fn eq_v(self, other: Self) -> bool {
        self == other
    }

    fn zero() -> Self {
        0
    }

    fn one() -> Self {
        1
    }

    fn add_v(self, other: Self) -> Self {
        self + other
    }

    fn sub_v(self, other: Self) -> Self {
        self - other
    }

    fn mul_v(self, other: Self) -> Self {
        self * other
    }

    fn div_v(self, other: Self) -> Self {
        self / other
    }
}

impl Scalar for i8 {
    open spec fn v(self) -> int {
        self as int
    }

    open spec fn min_v() -> int {
        i8::MIN as int
    }

    open spec fn max_v() -> int {
        i8::MAX as int
    }

    proof fn in_range(self) {
    }

    fn lt(self, other: Self) -> bool {
        self < other
    }

    fn gt(self, other: Self) -> bool {
        self > other
    }

    fn eq_v(self, other: Self) -> bool {
        self == other
    }

    fn zero() -> Self {
        0
    }

    fn one() -> Self {
        1
    }

    fn add_v(self, other: Self) -> Self {
        self + other
    }

    fn sub_v(self, other: Self) -> Self {
        self - other
    }

    fn mul_v(self, other: Self) -> Self {
        self * other
    }

    fn div_v(self, other: Self) -> Self {
        let q: u8 = (self as u8) / (other as u8);
        q as i8
    }
}

impl Scalar for i16 {
    open spec fn v(self) -> int {
        self as int
    }

    open spec fn min_v() -> int {
        i16::MIN as int
    }

    open spec fn max_v() -> int {
        i16::MAX as int
    }

    proof fn in_range(self) {
    }

    fn lt(self, other: Self) -> bool {
        self < other
    }

    fn gt(self, other: Self) -> bool {
        self > other
    }

    fn eq_v(self, other: Self) -> bool {
        self == other
    }

    fn zero() -> Self {
        0
    }

    fn one() -> Self {
        1
    }

    fn add_v(self, other: Self) -> Self {
        self + other
    }

    fn sub_v(self, other: Self) -> Self {
        self - other
    }

    fn mul_v(self, other: Self) -> Self {
        self * other
    }

    fn div_v(self, other: Self) -> Self {
        let q: u16 = (self as u16) / (other as u16);
        q as i16
    }
}

impl Scalar for i64 {
    open spec fn v(self) -> int {
        self as int
    }

    open spec fn min_v() -> int {
        i64::MIN as int
    }

    open spec fn max_v() -> int {
        i64::MAX as int
    }

    proof fn in_range(self) {
    }

    fn lt(self, other: Self) -> bool {
        self < other
    }

    fn gt(self, other: Self) -> bool {
        self > other
    }

    fn eq_v(self, other: Self) -> bool {
        self == other
    }

    fn zero() -> Self {
        0
    }

    fn one() -> Self {
        1
    }

    fn add_v(self, other: Self) -> Self {
        self + other
    }

    fn sub_v(self, other: Self) -> Self {
        self - other
    }

    fn mul_v(self, other: Self) -> Self {
        self * other
    }

    fn div_v(self, other: Self) -> Self {
        let q: u64 = (self as u64) / (other as u64);
        q as i64
    }
}

impl Scalar for i128 {
    open spec fn v(self) -> int {
        self as int
    }

    open spec fn min_v() -> int {
        i128::MIN as int
    }

    open spec fn max_v() -> int {
        i128::MAX as int
    }

    proof fn in_range(self) {
    }

    fn lt(self, other: Self) -> bool {
        self < other
    }

    fn gt(self, other: Self) -> bool {
        self > other
    }

    fn eq_v(self, other: Self) -> bool {
        self == other
    }

    fn zero() -> Self {
        0
    }

    fn one() -> Self {
        1
    }

    fn add_v(self, other: Self) -> Self {
        self + other
    }

    fn sub_v(self, other: Self) -> Self {
        self - other
    }

    fn mul_v(self, other: Self) -> Self {
        self * other
    }

    fn div_v(self, other: Self) -> Self {
        let q: u128 = (self as u128) / (other as u128);
        q as i128
    }
}

impl Scalar for isize {
    open spec fn v(self) -> int {
        self as int
    }

    open spec fn min_v() -> int {
        isize::MIN as int
    }

    open spec fn max_v() -> int {
        isize::MAX as int
    }

    proof fn in_range(self) {
    }

    fn lt(self, other: Self) -> bool {
        self < other
    }

    fn gt(self, other: Self) -> bool {
        self > other
    }

    fn eq_v(self, other: Self) -> bool {
        self == other
    }

    fn zero() -> Self {
        0
    }

    fn one() -> Self {
        1
    }

    fn add_v(self, other: Self) -> Self {
        self + other
    }

    fn sub_v(self, other: Self) -> Self {
        self - other
    }

    fn mul_v(self, other: Self) -> Self {
        self * other
    }

    fn div_v(self, other: Self) -> Self {
        let q: usize = (self as usize) / (other as usize);
        q as isize
    }
}

/// Absolute value over mathematical integers.
pub open spec fn abs_i(a: int) -> int {
    if a < 0 {
        -a
    } else {
        a
    }
}

/// Truncating division over mathematical integers: the quotient of the
/// absolute values, negated when the operands' signs differ. This is the
/// rounding the hardware division of signed primitives performs.
pub open spec fn div_trunc(a: int, b: int) -> int {
    if (a < 0) == (b < 0) {
        abs_i(a) / abs_i(b)
    } else {
        -(abs_i(a) / abs_i(b))
    }
}

/// The value of the cubic Bezier curve with endpoints `p0`, `p3` and control
/// points `c1`, `c2`, sampled at `t`: the standard Bernstein-basis formula,
/// in the evaluation order [`SignedScalar::bezier_sample`] uses.
pub open spec fn bezier_sample_i(p0: int, c1: int, c2: int, p3: int, t: int) -> int {
    let omt = 1 - t;
    let omt2 = omt * omt;
    let omt3 = omt2 * omt;
    let t2 = t * t;
    let t3 = t2 * t;
    p0 * omt3 + c1 * omt2 * t * 3 + c2 * omt * t2 * 3 + p3 * t3
}

/// The derivative of the same cubic Bezier curve at `t`, in the evaluation
/// order [`SignedScalar::bezier_derivative`] uses.
pub open spec fn bezier_derivative_i(p0: int, c1: int, c2: int, p3: int, t: int) -> int {
    let omt = 1 - t;
    let omt2 = omt * omt;
    let t2 = t * t;
    (c1 - p0) * 3 * omt2 + (c2 - c1) * 6 * omt * t + (p3 - c2) * 3 * t2
}

/// Whether every intermediate value of the Bezier sampling formula lies in
/// `[lo, hi]`, in the order the formula computes them.
pub open spec fn bezier_sample_ok(lo: int, hi: int, p0: int, c1: int, c2: int, p3: int, t: int) -> bool {
    let omt = 1 - t;
    let omt2 = omt * omt;
    let omt3 = omt2 * omt;
    let t2 = t * t;
    let t3 = t2 * t;
    &&& lo <= omt <= hi
    &&& lo <= omt2 <= hi
    &&& lo <= omt3 <= hi
    &&& lo <= t2 <= hi
    &&& lo <= t3 <= hi
    &&& lo <= p0 * omt3 <= hi
    &&& lo <= c1 * omt2 <= hi
    &&& lo <= c1 * omt2 * t <= hi
    &&& lo <= c1 * omt2 * t * 3 <= hi
    &&& lo <= c2 * omt <= hi
    &&& lo <= c2 * omt * t2 <= hi
    &&& lo <= c2 * omt * t2 * 3 <= hi
    &&& lo <= p3 * t3 <= hi
    &&& lo <= p0 * omt3 + c1 * omt2 * t * 3 <= hi
    &&& lo <= p0 * omt3 + c1 * omt2 * t * 3 + c2 * omt * t2 * 3 <= hi
    &&& lo <= bezier_sample_i(p0, c1, c2, p3, t) <= hi
}

/// Whether every intermediate value of the Bezier derivative formula lies in
/// `[lo, hi]`, in the order the formula computes them.
pub open spec fn bezier_derivative_ok(lo: int, hi: int, p0: int, c1: int, c2: int, p3: int, t: int) -> bool {
    let omt = 1 - t;
    let omt2 = omt * omt;
    let t2 = t * t;
    &&& lo <= omt <= hi
    &&& lo <= omt2 <= hi
    &&& lo <= t2 <= hi
    &&& lo <= c1 - p0 <= hi
    &&& lo <= (c1 - p0) * 3 <= hi
    &&& lo <= (c1 - p0) * 3 * omt2 <= hi
    &&& lo <= c2 - c1 <= hi
    &&& lo <= (c2 - c1) * 6 <= hi
    &&& lo <= (c2 - c1) * 6 * omt <= hi
    &&& lo <= (c2 - c1) * 6 * omt * t <= hi
    &&& lo <= p3 - c2 <= hi
    &&& lo <= (p3 - c2) * 3 <= hi
    &&& lo <= (p3 - c2) * 3 * t2 <= hi
    &&& lo <= (c1 - p0) * 3 * omt2 + (c2 - c1) * 6 * omt * t <= hi
    &&& lo <= bezier_derivative_i(p0, c1, c2, p3, t) <= hi
}

/// Law: a Bezier curve starts at its first point and ends at its terminal
/// point: sampling at `t == 0` gives `p0`, and at `t == 1` gives `p3`.
pub proof fn lemma_bezier_sample_endpoints(p0: int, c1: int, c2: int, p3: int)
    ensures
        bezier_sample_i(p0, c1, c2, p3, 0) == p0,
        bezier_sample_i(p0, c1, c2, p3, 1) == p3,
{
    assert(bezier_sample_i(p0, c1, c2, p3, 0) == p0 * 1 + c1 * 1 * 0 * 3 + c2 * 1 * 0 * 3 + p3 * 0);
    assert(bezier_sample_i(p0, c1, c2, p3, 1) == p0 * 0 + c1 * 0 * 1 * 3 + c2 * 0 * 1 * 3 + p3 * 1);
}

/// The Catmull-Rom-style cubic interpolation value with fixed spacing,
/// scaled by the type's value for one half, in the evaluation order
/// [`SignedScalar::cubic_interpolate`] uses.
pub open spec fn cubic_interpolate_i(h: int, p0: int, p1: int, pre: int, post: int, t: int) -> int {
    h * (p0 * 2 + (-pre + p1) * t + (2 * pre - 5 * p0 + 4 * p1 - post) * (t * t) + (-pre + 3
        * p0 - 3 * p1 + post) * (t * t * t))
}

/// Whether every intermediate value of the cubic interpolation formula lies
/// in `[lo, hi]`, in the order the formula computes them.
pub open spec fn cubic_interpolate_ok(lo: int, hi: int, h: int, p0: int, p1: int, pre: int, post: int, t: int) -> bool {
    &&& lo <= -pre <= hi
    &&& lo <= p0 * 2 <= hi
    &&& lo <= -pre + p1 <= hi
    &&& lo <= (-pre + p1) * t <= hi
    &&& lo <= 2 * pre <= hi
    &&& lo <= 5 * p0 <= hi
    &&& lo <= 2 * pre - 5 * p0 <= hi
    &&& lo <= 4 * p1 <= hi
    &&& lo <= 2 * pre - 5 * p0 + 4 * p1 <= hi
    &&& lo <= 2 * pre - 5 * p0 + 4 * p1 - post <= hi
    &&& lo <= t * t <= hi
    &&& lo <= (2 * pre - 5 * p0 + 4 * p1 - post) * (t * t) <= hi
    &&& lo <= 3 * p0 <= hi
    &&& lo <= -pre + 3 * p0 <= hi
    &&& lo <= 3 * p1 <= hi
    &&& lo <= -pre + 3 * p0 - 3 * p1 <= hi
    &&& lo <= -pre + 3 * p0 - 3 * p1 + post <= hi
    &&& lo <= t * t * t <= hi
    &&& lo <= (-pre + 3 * p0 - 3 * p1 + post) * (t * t * t) <= hi
    &&& lo <= p0 * 2 + (-pre + p1) * t <= hi
    &&& lo <= p0 * 2 + (-pre + p1) * t + (2 * pre - 5 * p0 + 4 * p1 - post) * (t * t) <= hi
    &&& lo <= p0 * 2 + (-pre + p1) * t + (2 * pre - 5 * p0 + 4 * p1 - post) * (t * t) + (-pre
        + 3 * p0 - 3 * p1 + post) * (t * t * t) <= hi
    &&& lo <= cubic_interpolate_i(h, p0, p1, pre, post, t) <= hi
}

/// The Barry-Goldman cubic interpolation value with explicit per-key times,
/// in the evaluation order [`SignedScalar::cubic_interpolate_in_time`] uses.
/// Each division guards its "time delta is zero" case by substituting a fixed
/// fallback weight instead of dividing by zero.
pub open spec fn cubic_in_time_i(h: int, p0: int, p1: int, pre: int, post: int, t0: int, p1t: int, pret: int, postt: int) -> int {
    let t = lerp_i(0, p1t, t0);
    let a1 = lerp_i(pre, p0, if pret == 0 { 0 } else { div_trunc(t - pret, -pret) });
    let a2 = lerp_i(p0, p1, if p1t == 0 { h } else { div_trunc(t, p1t) });
    let a3 = lerp_i(p1, post, if postt - p1t == 0 { 1 } else { div_trunc(t - p1t, postt - p1t) });
    let b1 = lerp_i(a1, a2, if p1t - pret == 0 { 0 } else { div_trunc(t - pret, p1t - pret) });
    let b2 = lerp_i(a2, a3, if postt == 0 { 1 } else { div_trunc(t, postt) });
    lerp_i(b1, b2, if p1t == 0 { h } else { div_trunc(t, p1t) })
}

/// Whether every intermediate value of the timed cubic interpolation lies in
/// `[lo, hi]`, in the order the formula computes them.
pub open spec fn cubic_in_time_ok(lo: int, hi: int, h: int, p0: int, p1: int, pre: int, post: int, t0: int, p1t: int, pret: int, postt: int) -> bool {
    let t = lerp_i(0, p1t, t0);
    let w1 = if pret == 0 { 0 } else { div_trunc(t - pret, -pret) };
    let a1 = lerp_i(pre, p0, w1);
    let w2 = if p1t == 0 { h } else { div_trunc(t, p1t) };
    let a2 = lerp_i(p0, p1, w2);
    let w3 = if postt - p1t == 0 { 1 } else { div_trunc(t - p1t, postt - p1t) };
    let a3 = lerp_i(p1, post, w3);
    let w4 = if p1t - pret == 0 { 0 } else { div_trunc(t - pret, p1t - pret) };
    let b1 = lerp_i(a1, a2, w4);
    let w5 = if postt == 0 { 1 } else { div_trunc(t, postt) };
    let b2 = lerp_i(a2, a3, w5);
    &&& lo <= p1t * t0 <= hi
    &&& lo <= t <= hi
    &&& pret != 0 ==> lo <= -pret <= hi && lo <= t - pret <= hi && lo <= div_trunc(t - pret, -pret) <= hi
    &&& lo <= p0 - pre <= hi
    &&& lo <= (p0 - pre) * w1 <= hi
    &&& lo <= a1 <= hi
    &&& p1t != 0 ==> lo <= div_trunc(t, p1t) <= hi
    &&& lo <= p1 - p0 <= hi
    &&& lo <= (p1 - p0) * w2 <= hi
    &&& lo <= a2 <= hi
    &&& lo <= postt - p1t <= hi
    &&& postt - p1t != 0 ==> lo <= t - p1t <= hi && lo <= div_trunc(t - p1t, postt - p1t) <= hi
    &&& lo <= post - p1 <= hi
    &&& lo <= (post - p1) * w3 <= hi
    &&& lo <= a3 <= hi
    &&& lo <= p1t - pret <= hi
    &&& p1t - pret != 0 ==> lo <= t - pret <= hi && lo <= div_trunc(t - pret, p1t - pret) <= hi
    &&& lo <= a2 - a1 <= hi
    &&& lo <= (a2 - a1) * w4 <= hi
    &&& lo <= b1 <= hi
    &&& postt != 0 ==> lo <= div_trunc(t, postt) <= hi
    &&& lo <= a3 - a2 <= hi
    &&& lo <= (a3 - a2) * w5 <= hi
    &&& lo <= b2 <= hi
    &&& lo <= b2 - b1 <= hi
    &&& lo <= (b2 - b1) * w2 <= hi
    &&& lo <= lerp_i(b1, b2, w2) <= hi
}

/// Supporting fact: a power with base at least two exceeds its exponent.
proof fn lemma_pow_exceeds(b: int, e: nat)
    requires
        b >= 2,
    ensures
        e < pow(b, e),
    decreases e,
{
    reveal(pow);
    if e > 0 {
        lemma_pow_exceeds(b, (e - 1) as nat);
        lemma_pow_positive(b, (e - 1) as nat);
        assert(pow(b, e) == b * pow(b, (e - 1) as nat));
        assert(b * pow(b, (e - 1) as nat) >= 2 * pow(b, (e - 1) as nat)) by (nonlinear_arith)
            requires
                b >= 2,
                pow(b, (e - 1) as nat) >= 1,
        ;
    }
}

/// The floor of the base-`base` logarithm of `n`, computed by repeated
/// division, for any scalar type.
pub fn scalar_ilog<T: Scalar>(n: T, base: T) -> (r: T)
    requires
        n.v() >= 1,
        base.v() >= 2,
    ensures
        r.v() >= 0,
        r.v() == log(base.v(), n.v()),
{
    let mut x = n;
    let mut r = T::zero();
    proof {
        n.in_range();
        reveal(pow);
    }
    loop
        invariant_except_break
            base.v() >= 2,
            n.v() >= 1,
            T::min_v() <= 0,
            n.v() <= T::max_v(),
            x.v() >= 1,
            r.v() >= 0,
            log(base.v(), n.v()) == r.v() + log(base.v(), x.v()),
            x.v() * pow(base.v(), r.v() as nat) <= n.v(),
        ensures
            x.v() >= 1,
            x.v() < base.v(),
            r.v() >= 0,
            log(base.v(), n.v()) == r.v() + log(base.v(), x.v()),
        decreases x.v(),
    {
        if x.lt(base) {
            break;
        }
        proof {
            reveal(pow);
            let b = base.v();
            let rv = r.v();
            let xq = x.v() / b;
            lemma_log_s(b, x.v());
            lemma_div_non_zero(x.v(), b);
            lemma_div_decreases(x.v(), b);
            lemma_fundamental_div_mod(x.v(), b);
            lemma_pow_positive(b, rv as nat);
            assert(pow(b, (rv + 1) as nat) == b * pow(b, rv as nat));
            assert(xq * b <= x.v());
            lemma_mul_inequality(xq * b, x.v(), pow(b, rv as nat));
            lemma_mul_is_associative(xq, b, pow(b, rv as nat));
            assert(xq * pow(b, (rv + 1) as nat) <= n.v());
            lemma_mul_inequality(1, xq, pow(b, (rv + 1) as nat));
            lemma_pow_positive(b, (rv + 1) as nat);
            lemma_pow_exceeds(b, (rv + 1) as nat);
            assert(rv + 1 <= T::max_v());
        }
        x = x.div_v(base);
        r = r.add_v(T::one());
    }
    proof {
        lemma_log0(base.v(), x.v());
    }
    r
}

/// The integer scalar capability: a scalar that also supports the integer
/// logarithm of [`IntUnique`].
pub trait IntScalar<T: Scalar>: Scalar + IntUnique<T> {}

/// The integer logarithm capability, defined per concrete width.
pub trait IntUnique<T: Scalar>: Scalar {
    /// The floor of the base-`base` logarithm of this value. The operand
    /// must be positive and the base at least two; anything else is a
    /// contract violation.
    fn ilog(self, base: T) -> (r: T)
        requires
            self.v() >= 1,
            base.v() >= 2,
        ensures
            r.v() >= 0,
            r.v() == log(base.v(), self.v()),
    ;
}

/// The capability of converting losslessly into another scalar type, as the
/// numeric cast between two concrete widths does for representable values.
pub trait ScalarCast<U: Scalar>: Scalar {
    /// Converts this value into `U`. The value must be representable in the
    /// target type; a value that is not would make the conversion lossy,
    /// which is a contract violation.
    fn cast_scalar(self) -> (r: U)
        requires
            U::min_v() <= self.v() <= U::max_v(),
        ensures
            r.v() == self.v(),
    ;
}

/// The signed scalar capability: negation, truncating division, the small
/// constants the curve formulas draw from the type, and the cubic curve
/// formulas themselves as provided implementations.
pub trait SignedScalar: Scalar {
    /// The value this type gives to one half. Integer types truncate it to
    /// zero, which the curve formulas below inherit.
    spec fn half_v() -> int;

    /// Exact negation; the negated value must be representable.
    fn neg_v(self) -> (r: Self)
        requires
            Self::min_v() <= -self.v() <= Self::max_v(),
        ensures
            r.v() == -self.v(),
    ;

    /// Truncating division; the quotient must be representable and the
    /// divisor nonzero.
    fn div_t(self, other: Self) -> (r: Self)
        requires
            other.v() != 0,
            Self::min_v() <= div_trunc(self.v(), other.v()) <= Self::max_v(),
        ensures
            r.v() == div_trunc(self.v(), other.v()),
    ;

    /// The value this type gives to one half, as a scalar.
    fn half() -> (r: Self)
        ensures
            r.v() == Self::half_v(),
    ;

    /// The constant two.
    fn two() -> (r: Self)
        ensures
            r.v() == 2,
    ;

    /// The constant three.
    fn three() -> (r: Self)
        ensures
            r.v() == 3,
    ;

    /// The constant four.
    fn four() -> (r: Self)
        ensures
            r.v() == 4,
    ;

    /// The constant five.
    fn five() -> (r: Self)
        ensures
            r.v() == 5,
    ;

    /// The constant six.
    fn six() -> (r: Self)
        ensures
            r.v() == 6,
    ;

    /// Samples the cubic Bezier curve set by this scalar, the two control
    /// points and the terminal point at position `t`, by the Bernstein-basis
    /// formula. Every intermediate of the formula must be representable.
    fn bezier_sample(self, control_1: Self, control_2: Self, terminal: Self, t: Self) -> (r: Self)
        requires
            bezier_sample_ok(Self::min_v(), Self::max_v(), self.v(), control_1.v(), control_2.v(), terminal.v(), t.v()),
        ensures
            r.v() == bezier_sample_i(self.v(), control_1.v(), control_2.v(), terminal.v(), t.v()),
    {
        let t_3 = Self::three();
        let omt = Self::one().sub_v(t);
        let omt2 = omt.mul_v(omt);
        let omt3 = omt2.mul_v(omt);
        let t2 = t.mul_v(t);
        let t3 = t2.mul_v(t);
        self.mul_v(omt3).add_v(control_1.mul_v(omt2).mul_v(t).mul_v(t_3)).add_v(
            control_2.mul_v(omt).mul_v(t2).mul_v(t_3),
        ).add_v(terminal.mul_v(t3))
    }

    /// Samples the cubic interpolation between this scalar and `terminal`,
    /// with `pre_start` and `post_terminal` as outer handles, at `t`: a
    /// Catmull-Rom-style Hermite blend with fixed spacing, scaled by the
    /// type's value for one half. Every intermediate must be representable.
    fn cubic_interpolate(self, terminal: Self, pre_start: Self, post_terminal: Self, t: Self) -> (r: Self)
        requires
            cubic_interpolate_ok(Self::min_v(), Self::max_v(), Self::half_v(), self.v(), terminal.v(), pre_start.v(), post_terminal.v(), t.v()),
        ensures
            r.v() == cubic_interpolate_i(Self::half_v(), self.v(), terminal.v(), pre_start.v(), post_terminal.v(), t.v()),
    {
        let t_05 = Self::half();
        let t_2 = Self::two();
        let t_3 = Self::three();
        let t_4 = Self::four();
        let t_5 = Self::five();
        let term_linear = pre_start.neg_v().add_v(terminal).mul_v(t);
        let coeff_square = t_2.mul_v(pre_start).sub_v(t_5.mul_v(self)).add_v(t_4.mul_v(terminal)).sub_v(post_terminal);
        let term_square = coeff_square.mul_v(t.mul_v(t));
        let coeff_cube = pre_start.neg_v().add_v(t_3.mul_v(self)).sub_v(t_3.mul_v(terminal)).add_v(post_terminal);
        let term_cube = coeff_cube.mul_v(t.mul_v(t).mul_v(t));
        t_05.mul_v(self.mul_v(t_2).add_v(term_linear).add_v(term_square).add_v(term_cube))
    }

    /// Like `cubic_interpolate`, but with explicit per-key time values, by
    /// the Barry-Goldman method: `t0` is re-parameterized against
    /// `terminal_t`, three linear interpolations are blended into two and
    /// then into the result, and each division guards its "time delta is
    /// zero" case with a fixed fallback weight.
    fn cubic_interpolate_in_time(self, terminal: Self, pre_start: Self, post_terminal: Self, t0: Self, terminal_t: Self, pre_start_t: Self, post_terminal_t: Self) -> (r: Self)
        requires
            cubic_in_time_ok(Self::min_v(), Self::max_v(), Self::half_v(), self.v(), terminal.v(), pre_start.v(), post_terminal.v(), t0.v(), terminal_t.v(), pre_start_t.v(), post_terminal_t.v()),
        ensures
            r.v() == cubic_in_time_i(Self::half_v(), self.v(), terminal.v(), pre_start.v(), post_terminal.v(), t0.v(), terminal_t.v(), pre_start_t.v(), post_terminal_t.v()),
    {
        proof {
            terminal_t.in_range();
        }
        let t_0 = Self::zero();
        let t_05 = Self::half();
        let t_1 = Self::one();
        let t = t_0.lerp(terminal_t, t0);
        let w1 = if pre_start_t.eq_v(t_0) {
            t_0
        } else {
            t.sub_v(pre_start_t).div_t(pre_start_t.neg_v())
        };
        let a1 = pre_start.lerp(self, w1);
        let w2 = if terminal_t.eq_v(t_0) {
            t_05
        } else {
            t.div_t(terminal_t)
        };
        let a2 = self.lerp(terminal, w2);
        let delta_post = post_terminal_t.sub_v(terminal_t);
        let w3 = if delta_post.eq_v(t_0) {
            t_1
        } else {
            t.sub_v(terminal_t).div_t(delta_post)
        };
        let a3 = terminal.lerp(post_terminal, w3);
        let delta_span = terminal_t.sub_v(pre_start_t);
        let w4 = if delta_span.eq_v(t_0) {
            t_0
        } else {
            t.sub_v(pre_start_t).div_t(delta_span)
        };
        let b1 = a1.lerp(a2, w4);
        let w5 = if post_terminal_t.eq_v(t_0) {
            t_1
        } else {
            t.div_t(post_terminal_t)
        };
        let b2 = a2.lerp(a3, w5);
        let w6 = if terminal_t.eq_v(t_0) {
            t_05
        } else {
            t.div_t(terminal_t)
        };
        b1.lerp(b2, w6)
    }

    /// The derivative of the same cubic Bezier curve at position `t`.
    /// Every intermediate of the formula must be representable.
    fn bezier_derivative(self, control_1: Self, control_2: Self, terminal: Self, t: Self) -> (r: Self)
        requires
            bezier_derivative_ok(Self::min_v(), Self::max_v(), self.v(), control_1.v(), control_2.v(), terminal.v(), t.v()),
        ensures
            r.v() == bezier_derivative_i(self.v(), control_1.v(), control_2.v(), terminal.v(), t.v()),
    {
        let t_3 = Self::three();
        let t_6 = Self::six();
        let omt = Self::one().sub_v(t);
        let omt2 = omt.mul_v(omt);
        let t2 = t.mul_v(t);
        control_1.sub_v(self).mul_v(t_3).mul_v(omt2).add_v(
            control_2.sub_v(control_1).mul_v(t_6).mul_v(omt).mul_v(t),
        ).add_v(terminal.sub_v(control_2).mul_v(t_3).mul_v(t2))
    }
}

impl SignedScalar for i32 {
    open spec fn half_v() -> int {
        0
    }

    fn neg_v(self) -> Self {
        -self
    }

    fn div_t(self, other: Self) -> Self {
        let neg: bool = (self < 0) != (other < 0);
        let a: u32 = if self >= 0 {
            self as u32
        } else {
            (-(self as i64)) as u32
        };
        let b: u32 = if other >= 0 {
            other as u32
        } else {
            (-(other as i64)) as u32
        };
        let q: u32 = a / b;
        if neg {
            (-(q as i64)) as i32
        } else {
            q as i32
        }
    }

    fn half() -> Self {
        0
    }

    fn two() -> Self {
        2
    }

    fn three() -> Self {
        3
    }

    fn four() -> Self {
        4
    }

    fn five() -> Self {
        5
    }

    fn six() -> Self {
        6
    }
}

impl SignedScalar for i8 {
    open spec fn half_v() -> int {
        0
    }

    fn neg_v(self) -> Self {
        -self
    }

    fn div_t(self, other: Self) -> Self {
        let neg: bool = (self < 0) != (other < 0);
        let a: u8 = if self >= 0 {
            self as u8
        } else {
            (-(self as i128)) as u8
        };
        let b: u8 = if other >= 0 {
            other as u8
        } else {
            (-(other as i128)) as u8
        };
        let q: u8 = a / b;
        if neg {
            (-(q as i128)) as i8
        } else {
            q as i8
        }
    }

    fn half() -> Self {
        0
    }

    fn two() -> Self {
        2
    }

    fn three() -> Self {
        3
    }

    fn four() -> Self {
        4
    }

    fn five() -> Self {
        5
    }

    fn six() -> Self {
        6
    }
}

impl SignedScalar for i16 {
    open spec fn half_v() -> int {
        0
    }

    fn neg_v(self) -> Self {
        -self
    }

    fn div_t(self, other: Self) -> Self {
        let neg: bool = (self < 0) != (other < 0);
        let a: u16 = if self >= 0 {
            self as u16
        } else {
            (-(self as i128)) as u16
        };
        let b: u16 = if other >= 0 {
            other as u16
        } else {
            (-(other as i128)) as u16
        };
        let q: u16 = a / b;
        if neg {
            (-(q as i128)) as i16
        } else {
            q as i16
        }
    }

    fn half() -> Self {
        0
    }

    fn two() -> Self {
        2
    }

    fn three() -> Self {
        3
    }

    fn four() -> Self {
        4
    }

    fn five() -> Self {
        5
    }

    fn six() -> Self {
        6
    }
}

impl SignedScalar for i64 {
    open spec fn half_v() -> int {
        0
    }

    fn neg_v(self) -> Self {
        -self
    }

    fn div_t(self, other: Self) -> Self {
        let neg: bool = (self < 0) != (other < 0);
        let a: u64 = if self >= 0 {
            self as u64
        } else {
            (-(self as i128)) as u64
        };
        let b: u64 = if other >= 0 {
            other as u64
        } else {
            (-(other as i128)) as u64
        };
        let q: u64 = a / b;
        if neg {
            (-(q as i128)) as i64
        } else {
            q as i64
        }
    }

    fn half() -> Self {
        0
    }

    fn two() -> Self {
        2
    }

    fn three() -> Self {
        3
    }

    fn four() -> Self {
        4
    }

    fn five() -> Self {
        5
    }

    fn six() -> Self {
        6
    }
}

impl SignedScalar for isize {
    open spec fn half_v() -> int {
        0
    }

    fn neg_v(self) -> Self {
        -self
    }

    fn div_t(self, other: Self) -> Self {
        let neg: bool = (self < 0) != (other < 0);
        let a: usize = if self >= 0 {
            self as usize
        } else {
            (-(self as i128)) as usize
        };
        let b: usize = if other >= 0 {
            other as usize
        } else {
            (-(other as i128)) as usize
        };
        let q: usize = a / b;
        if neg {
            (-(q as i128)) as isize
        } else {
            q as isize
        }
    }

    fn half() -> Self {
        0
    }

    fn two() -> Self {
        2
    }

    fn three() -> Self {
        3
    }

    fn four() -> Self {
        4
    }

    fn five() -> Self {
        5
    }

    fn six() -> Self {
        6
    }
}

impl SignedScalar for i128 {
    open spec fn half_v() -> int {
        0
    }

    fn neg_v(self) -> Self {
        -self
    }

    fn div_t(self, other: Self) -> Self {
        let neg: bool = (self < 0) != (other < 0);
        let a: u128 = if self >= 0 {
            self as u128
        } else if self == i128::MIN {
            0x8000_0000_0000_0000_0000_0000_0000_0000u128
        } else {
            (-self) as u128
        };
        let b: u128 = if other >= 0 {
            other as u128
        } else if other == i128::MIN {
            0x8000_0000_0000_0000_0000_0000_0000_0000u128
        } else {
            (-other) as u128
        };
        let q: u128 = a / b;
        if neg {
            if q >= 0x8000_0000_0000_0000_0000_0000_0000_0000u128 {
                i128::MIN
            } else {
                -(q as i128)
            }
        } else {
            q as i128
        }
    }

    fn half() -> Self {
        0
    }

    fn two() -> Self {
        2
    }

    fn three() -> Self {
        3
    }

    fn four() -> Self {
        4
    }

    fn five() -> Self {
        5
    }

    fn six() -> Self {
        6
    }
}

impl IntScalar<u8> for u8 {}

impl IntUnique<u8> for u8 {
    fn ilog(self, base: u8) -> u8 {
        scalar_ilog(self, base)
    }
}

impl IntScalar<u16> for u16 {}

impl IntUnique<u16> for u16 {
    fn ilog(self, base: u16) -> u16 {
        scalar_ilog(self, base)
    }
}

impl IntScalar<u32> for u32 {}

impl IntUnique<u32> for u32 {
    fn ilog(self, base: u32) -> u32 {
        scalar_ilog(self, base)
    }
}

impl IntScalar<u64> for u64 {}

impl IntUnique<u64> for u64 {
    fn ilog(self, base: u64) -> u64 {
        scalar_ilog(self, base)
    }
}

impl IntScalar<u128> for u128 {}

impl IntUnique<u128> for u128 {
    fn ilog(self, base: u128) -> u128 {
        scalar_ilog(self, base)
    }
}

impl IntScalar<usize> for usize {}

impl IntUnique<usize> for usize {
    fn ilog(self, base: usize) -> usize {
        scalar_ilog(self, base)
    }
}

impl IntScalar<i8> for i8 {}

impl IntUnique<i8> for i8 {
    fn ilog(self, base: i8) -> i8 {
        scalar_ilog(self, base)
    }
}

impl IntScalar<i16> for i16 {}

impl IntUnique<i16> for i16 {
    fn ilog(self, base: i16) -> i16 {
        scalar_ilog(self, base)
    }
}

impl IntScalar<i32> for i32 {}

impl IntUnique<i32> for i32 {
    fn ilog(self, base: i32) -> i32 {
        scalar_ilog(self, base)
    }
}

impl IntScalar<i64> for i64 {}

impl IntUnique<i64> for i64 {
    fn ilog(self, base: i64) -> i64 {
        scalar_ilog(self, base)
    }
}

impl IntScalar<i128> for i128 {}

impl IntUnique<i128> for i128 {
    fn ilog(self, base: i128) -> i128 {
        scalar_ilog(self, base)
    }
}

impl IntScalar<isize> for isize {}

impl IntUnique<isize> for isize {
    fn ilog(self, base: isize) -> isize {
        scalar_ilog(self, base)
    }
}

impl ScalarCast<i64> for i32 {
    fn cast_scalar(self) -> i64 {
        self as i64
    }
}

impl ScalarCast<i32> for i64 {
    fn cast_scalar(self) -> i32 {
        self as i32
    }
}

impl ScalarCast<u64> for u32 {
    fn cast_scalar(self) -> u64 {
        self as u64
    }
}

impl ScalarCast<u32> for u64 {
    fn cast_scalar(self) -> u32 {
        self as u32
    }
}

impl ScalarCast<u32> for i32 {
    fn cast_scalar(self) -> u32 {
        self as u32
    }
}

impl ScalarCast<i32> for u32 {
    fn cast_scalar(self) -> i32 {
        self as i32
    }
}

} // verus!
