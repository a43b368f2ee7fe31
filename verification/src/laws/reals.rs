//! Numbers that compute without rounding, and elementary functions that are the
//! mathematical ones. Laws on the values that are set are stated for these.
use crate::elementary::Elementary;
use crate::number::{
    clamped, converted, half_turn, quotient, small, times, whole, Number, Real, Signed,
};
use vstd::prelude::*;
use vstd::std_specs::cmp::{PartialOrdIs, PartialOrdSpec};
use vstd::std_specs::ops::{AddSpec, DivSpec, MulSpec, NegSpec, RemSpec, SubSpec};

verus! {

/// A way to read the numbers of a type as real numbers.
#[verifier::reject_recursive_types(T)]
pub struct Measure<T> {
    pub value: spec_fn(T) -> real,
}

impl<T: Number> Measure<T> {
    /// The real number that `a` is read as.
    pub open spec fn of(self, a: T) -> real {
        (self.value)(a)
    }

    /// Read this way, comparisons, sums, differences and products are those of the
    /// real numbers, wherever they are defined.
    pub open spec fn exact(self) -> bool {
        &&& forall|a: T, b: T|
            #![trigger a.partial_cmp_spec(&b)]
            {
                &&& a.is_lt(&b) <==> self.of(a) < self.of(b)
                &&& a.is_gt(&b) <==> self.of(a) > self.of(b)
            }
        &&& forall|a: T, b: T|
            a.add_req(b) ==> self.of(#[trigger] a.add_spec(b)) == self.of(a) + self.of(b)
        &&& forall|a: T, b: T|
            a.sub_req(b) ==> self.of(#[trigger] a.sub_spec(b)) == self.of(a) - self.of(b)
        &&& forall|a: T, b: T|
            a.mul_req(b) ==> self.of(#[trigger] a.mul_spec(b)) == self.of(a) * self.of(b)
    }

    /// So are quotients.
    pub open spec fn divides(self) -> bool {
        forall|a: T, b: T|
            a.div_req(b) ==> self.of(b) != 0 as real && self.of(#[trigger] a.div_spec(b))
                == self.of(a) / self.of(b)
    }

    /// A remainder is what is left when the divisor has been taken away a whole number
    /// of times; it is smaller than the divisor, and has the sign of the dividend.
    pub open spec fn leaves_over(self) -> bool {
        forall|a: T, b: T|
            a.rem_req(b) && self.of(b) > 0 as real ==> {
                let rest = self.of(#[trigger] a.rem_spec(b));
                &&& exists|k: int| #[trigger] apart(self.of(a), rest, self.of(b), k)
                &&& -self.of(b) < rest < self.of(b)
                &&& self.of(a) >= 0 as real ==> rest >= 0 as real
                &&& self.of(a) <= 0 as real ==> rest <= 0 as real
            }
    }
}

/// `a` is `k` times `c` away from `b`.
pub open spec fn apart(a: real, b: real, c: real, k: int) -> bool {
    a - b == k as real * c
}

impl<T: Signed> Measure<T> {
    /// `exact`, and small integers are read as what they are.
    pub open spec fn exact_signed(self) -> bool {
        &&& self.exact()
        &&& forall|n: i8| self.of(#[trigger] converted::<i8, T>(n)) == n as real
    }
}

impl<T: Real> Measure<T> {
    /// `exact_signed`, and integers are read as what they are, and opposites as
    /// opposites.
    pub open spec fn exact_real(self) -> bool {
        &&& self.exact_signed()
        &&& forall|n: i32| self.of(#[trigger] converted::<i32, T>(n)) == n as real
        &&& forall|a: T| a.neg_req() ==> self.of(#[trigger] a.neg_spec()) == -self.of(a)
    }
}

/// A narrow number, made wide, is read as before.
pub open spec fn widened<S: Signed, D: Real + From<S>>(n: Measure<S>, w: Measure<D>) -> bool {
    &&& n.exact_signed()
    &&& w.exact_real()
    &&& forall|a: S| w.of(#[trigger] converted::<S, D>(a)) == n.of(a)
}

/// How numbers of type `i32` are read.
pub open spec fn i32_measure() -> Measure<i32> {
    Measure { value: |a: i32| a as int as real }
}

/// How numbers of type `i64` are read.
pub open spec fn i64_measure() -> Measure<i64> {
    Measure { value: |a: i64| a as int as real }
}

/// How numbers of type `i128` are read.
pub open spec fn i128_measure() -> Measure<i128> {
    Measure { value: |a: i128| a as int as real }
}

proof fn lemma_integer_product(x: int, y: int)
    ensures
        (x * y) as real == x as real * y as real,
{
    assert((x * y) as real == x as real * y as real) by (nonlinear_arith);
}

/// Machine integers compute without rounding, but for quotients.
pub proof fn law_machine_integers_are_measured()
    ensures
        i32_measure().exact_signed(),
        i64_measure().exact_real(),
        i128_measure().exact_real(),
        widened(i32_measure(), i64_measure()),
{
    assert forall|a: i32, b: i32| a.mul_req(b) implies i32_measure().of(
        #[trigger] a.mul_spec(b),
    ) == i32_measure().of(a) * i32_measure().of(b) by {
        lemma_integer_product(a as int, b as int);
    }
    assert forall|a: i64, b: i64| a.mul_req(b) implies i64_measure().of(
        #[trigger] a.mul_spec(b),
    ) == i64_measure().of(a) * i64_measure().of(b) by {
        lemma_integer_product(a as int, b as int);
    }
    assert forall|a: i128, b: i128| a.mul_req(b) implies i128_measure().of(
        #[trigger] a.mul_spec(b),
    ) == i128_measure().of(a) * i128_measure().of(b) by {
        lemma_integer_product(a as int, b as int);
    }
}

// The elementary functions.

/// The functions of mathematics that the elementary functions stand for.
pub struct Functions {
    pub sin: spec_fn(real) -> real,
    pub cos: spec_fn(real) -> real,
    pub ln: spec_fn(real) -> real,
    pub pi: real,
}

/// `sqrt` gives the square root.
pub open spec fn takes_roots<S, D: Real, M: Elementary<S, D>>(w: Measure<D>) -> bool {
    forall|x: D, y: D| #[trigger]
        call_ensures(M::sqrt, (x,), y) && w.of(x) >= 0 as real ==> w.of(y) >= 0 as real && w.of(y)
            * w.of(y) == w.of(x)
}

/// `powf` squares where the exponent is two.
pub open spec fn squares_numbers<S, D: Real, M: Elementary<S, D>>(w: Measure<D>) -> bool {
    forall|x: D, e: D, y: D| #[trigger]
        call_ensures(M::powf, (x, e), y) && w.of(e) == 2 as real ==> w.of(y) == w.of(x) * w.of(x)
}

/// `narrow` gives the same number.
pub open spec fn narrows<S: Number, D: Real, M: Elementary<S, D>>(
    n: Measure<S>,
    w: Measure<D>,
) -> bool {
    forall|x: D, y: S| #[trigger] call_ensures(M::narrow, (x,), y) ==> n.of(y) == w.of(x)
}

/// `ln` gives the natural logarithm.
pub open spec fn takes_logarithms<S, D: Real, M: Elementary<S, D>>(
    w: Measure<D>,
    f: Functions,
) -> bool {
    forall|x: D, y: D| #[trigger]
        call_ensures(M::ln, (x,), y) && w.of(x) > 0 as real ==> w.of(y) == (f.ln)(w.of(x))
}

/// `r` is the distance of the point `(x, y)` from the origin.
pub open spec fn distance(r: real, x: real, y: real) -> bool {
    r >= 0 as real && r * r == x * x + y * y
}

/// `angle` is the direction of the point `(x, y)`, at most half a turn either way.
/// That of the origin is zero.
pub open spec fn direction(f: Functions, x: real, y: real, angle: real) -> bool {
    &&& forall|r: real| #[trigger]
        distance(r, x, y) ==> r * (f.cos)(angle) == x && r * (f.sin)(angle) == y
    &&& -f.pi <= angle <= f.pi
    &&& x == 0 as real && y == 0 as real ==> angle == 0 as real
}

/// `atan2` gives the direction of a point.
pub open spec fn finds_directions<S, D: Real, M: Elementary<S, D>>(
    w: Measure<D>,
    f: Functions,
) -> bool {
    forall|y: D, x: D, a: D| #[trigger]
        call_ensures(M::atan2, (y, x), a) ==> direction(f, w.of(x), w.of(y), w.of(a))
}

/// `asin` gives the angle, at most a quarter turn either way, whose sine its
/// argument is.
pub open spec fn inverts_sine<S, D: Real, M: Elementary<S, D>>(
    w: Measure<D>,
    f: Functions,
) -> bool {
    forall|x: D, a: D| #[trigger]
        call_ensures(M::asin, (x,), a) && -1 as real <= w.of(x) <= 1 as real ==> {
            &&& (f.sin)(w.of(a)) == w.of(x)
            &&& -f.pi <= 2 as real * w.of(a) <= f.pi
        }
}

/// `asin` keeps the sign, and turns round with its argument.
pub open spec fn asin_is_odd<S, D: Real, M: Elementary<S, D>>(w: Measure<D>) -> bool {
    &&& forall|x: D, a: D| #[trigger]
        call_ensures(M::asin, (x,), a) ==> {
            &&& w.of(x) > 0 as real <==> w.of(a) > 0 as real
            &&& w.of(x) < 0 as real <==> w.of(a) < 0 as real
        }
    &&& forall|x: D, a: D, y: D, b: D| #[trigger]
        call_ensures(M::asin, (x,), a) && #[trigger] call_ensures(M::asin, (y,), b) && w.of(x)
            == -w.of(y) ==> w.of(a) == -w.of(b)
}

// Arithmetic with constants.

/// A product with one is the number itself, and one with minus one is its opposite.
pub proof fn lemma_sides<T: Signed>(m: Measure<T>)
    requires
        m.exact_signed(),
    ensures
        m.of(small::<T>(0)->0) == 0 as real,
        m.of(small::<T>(1)->0) == 1 as real,
        m.of(small::<T>(-1)->0) == -(1 as real),
        forall|a: Option<T>| #[trigger]
            times(a, small(1)) matches Some(b) ==> a matches Some(x) && m.of(b) == m.of(x),
        forall|a: Option<T>| #[trigger]
            times(a, small(-1)) matches Some(b) ==> a matches Some(x) && m.of(b) == -m.of(x),
{
    assert(m.of(converted::<i8, T>(-1i8)) == -1i8 as real);
    assert(m.of(converted::<i8, T>(0i8)) == 0i8 as real);
    assert(m.of(converted::<i8, T>(1i8)) == 1i8 as real);
    assert forall|a: Option<T>| #[trigger] times(a, small(1)) is Some implies a is Some && m.of(
        times(a, small(1))->0,
    ) == m.of(a->0) by {
        let v: real = m.of(a->0);
        assert(v * 1 as real == v);
    }
    assert forall|a: Option<T>| #[trigger] times(a, small(-1)) is Some implies a is Some && m.of(
        times(a, small(-1))->0,
    ) == -m.of(a->0) by {
        let v: real = m.of(a->0);
        let one: real = -(1 as real);
        assert(v * one == -v) by (nonlinear_arith)
            requires
                one == -(1 as real),
        ;
    }
}

/// Multiplying back what was divided gives what was there.
pub proof fn lemma_divided(a: real, b: real)
    requires
        b != 0 as real,
    ensures
        a / b * b == a,
{
    assert(a / b * b == a) by (nonlinear_arith)
        requires
            b != 0 as real,
    ;
}

/// A number held between two bounds is the nearest one between them, and one that
/// compares with neither bound is left as it is.
pub proof fn law_clamping_holds_between_the_bounds<T: Number>(m: Measure<T>, x: T, low: T, high: T)
    ensures
        !x.is_lt(&low) && !x.is_gt(&high) ==> clamped(Some(x), low, high) == Some(x),
        clamped(Some(x), low, high) is Some,
        m.exact() && m.of(low) <= m.of(high) ==> {
            let held = m.of(clamped(Some(x), low, high)->0);
            &&& m.of(low) <= held <= m.of(high)
            &&& m.of(low) <= m.of(x) <= m.of(high) ==> held == m.of(x)
            &&& m.of(x) < m.of(low) ==> held == m.of(low)
            &&& m.of(x) > m.of(high) ==> held == m.of(high)
        },
{
}

/// The quotient of two integers, times the divisor, is the dividend.
pub proof fn law_quotient_is_exact<D: Real>(w: Measure<D>, n: int, d: int)
    requires
        w.exact_real(),
        w.divides(),
        i32::MIN <= n <= i32::MAX,
        i32::MIN <= d <= i32::MAX,
        quotient::<D>(n, d) is Some,
    ensures
        d != 0,
        w.of(quotient::<D>(n, d)->0) * d as real == n as real,
{
    assert(w.of(whole::<D>(n)->0) == n as real);
    assert(w.of(whole::<D>(d)->0) == d as real);
    lemma_divided(n as real, d as real);
}

/// Half a turn in radians is the double-precision number nearest to pi.
pub proof fn law_half_turn_is_exact<D: Real>(w: Measure<D>)
    requires
        w.exact_real(),
        w.divides(),
        half_turn::<D>() is Some,
    ensures
        w.of(half_turn::<D>()->0) * 281474976710656 as real == 884279719003555 as real,
{
    let a: real = w.of(whole::<D>(52707178)->0);
    let b: real = w.of(whole::<D>(8947107)->0);
    let s: real = w.of(whole::<D>(16777216)->0);
    assert(a == 52707178 as real && b == 8947107 as real && s == 16777216 as real);
    let h: real = w.of(half_turn::<D>()->0);
    assert(h == (a * s + b) / s / s);
    assert(h * 281474976710656 as real == 884279719003555 as real) by (nonlinear_arith)
        requires
            h == (a * s + b) / s / s,
            a == 52707178 as real,
            b == 8947107 as real,
            s == 16777216 as real,
    ;
}

} // verus!
