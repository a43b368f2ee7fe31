//! Arithmetic over an abstract number type.
//!
//! The regulators and the flight controller work on whatever number type their
//! user flies with. This module gathers what they ask of it, and gives partial
//! arithmetic on `Option` for contracts: a formula is `None` as soon as one of
//! its operations is outside what the number type can compute (an overflow, a
//! division by zero), and `Some` of the result otherwise.
use std::ops::{Add, Div, Mul, Neg, Rem, Sub};
use vstd::prelude::*;
use vstd::std_specs::cmp::{PartialOrdIs, PartialOrdSpec};
use vstd::std_specs::convert::FromSpec;
use vstd::std_specs::ops::{AddSpec, DivSpec, MulSpec, NegSpec, RemSpec, SubSpec};

verus! {

/// A number type: ordered, with the four operations and the remainder, and with
/// zero as its default. Every type with these operators is one.
pub trait Number:
    Clone
    + PartialOrd
    + Default
    + Add<Output = Self>
    + Sub<Output = Self>
    + Mul<Output = Self>
    + Div<Output = Self>
    + Rem<Output = Self>
{
}

impl<T> Number for T where
    T: Clone
        + PartialOrd
        + Default
        + Add<Output = T>
        + Sub<Output = T>
        + Mul<Output = T>
        + Div<Output = T>
        + Rem<Output = T>,
{
}

/// A number type that holds small integers, be they positive or negative.
pub trait Signed: Number + From<i8> {
}

impl<T> Signed for T where T: Number + From<i8> {
}

/// A number type that can be copied and negated, and that holds the constants of
/// the flight controller.
pub trait Real: Signed + Copy + From<i32> + Neg<Output = Self> {
}

impl<T> Real for T where T: Signed + Copy + From<i32> + Neg<Output = T> {
}

/// The conversion from `A` to `B` is a function of its argument.
pub open spec fn converts<A, B: From<A>>() -> bool {
    <B as FromSpec<A>>::obeys_from_spec()
}

/// The value that the conversion from `A` to `B` gives for `a`.
pub open spec fn converted<A, B: From<A>>(a: A) -> B {
    <B as FromSpec<A>>::from_spec(a)
}

/// The operators of `T` are functions of their operands, and a clone of a number
/// is that number. So it is with machine integers, and with the binary fractions of
/// the IEEE standard, but for the bits of what is not a number; there, besides,
/// every operation is defined.
pub open spec fn lawful<T: Number>() -> bool {
    &&& T::obeys_partial_cmp_spec()
    &&& T::obeys_add_spec()
    &&& T::obeys_sub_spec()
    &&& T::obeys_mul_spec()
    &&& T::obeys_div_spec()
    &&& T::obeys_rem_spec()
    &&& forall|a: T, b: T| #[trigger] call_ensures(T::clone, (&a,), b) ==> a == b
}

/// `lawful`, with the conversion that `Signed` adds; and the default is zero.
pub open spec fn lawful_signed<T: Signed>() -> bool {
    &&& lawful::<T>()
    &&& converts::<i8, T>()
    &&& forall|z: T| #[trigger] call_ensures(T::default, (), z) ==> Some(z) == small::<T>(0)
}

/// `lawful_signed`, with the operators that `Real` adds.
pub open spec fn lawful_real<T: Real>() -> bool {
    &&& lawful_signed::<T>()
    &&& converts::<i32, T>()
    &&& T::obeys_neg_spec()
}

/// The small integer `n` as a number.
pub open spec fn small<T: Signed>(n: int) -> Option<T>
    recommends
        i8::MIN <= n <= i8::MAX,
{
    Some(converted::<i8, T>(n as i8))
}

/// The integer `n` as a number.
pub open spec fn whole<T: Real>(n: int) -> Option<T>
    recommends
        i32::MIN <= n <= i32::MAX,
{
    Some(converted::<i32, T>(n as i32))
}

/// `a + b`.
pub open spec fn plus<T: Number>(a: Option<T>, b: Option<T>) -> Option<T> {
    match (a, b) {
        (Some(x), Some(y)) => if x.add_req(y) {
            Some(x.add_spec(y))
        } else {
            None
        },
        _ => None,
    }
}

/// `a - b`.
pub open spec fn minus<T: Number>(a: Option<T>, b: Option<T>) -> Option<T> {
    match (a, b) {
        (Some(x), Some(y)) => if x.sub_req(y) {
            Some(x.sub_spec(y))
        } else {
            None
        },
        _ => None,
    }
}

/// `a * b`.
pub open spec fn times<T: Number>(a: Option<T>, b: Option<T>) -> Option<T> {
    match (a, b) {
        (Some(x), Some(y)) => if x.mul_req(y) {
            Some(x.mul_spec(y))
        } else {
            None
        },
        _ => None,
    }
}

/// `a / b`.
pub open spec fn over<T: Number>(a: Option<T>, b: Option<T>) -> Option<T> {
    match (a, b) {
        (Some(x), Some(y)) => if x.div_req(y) {
            Some(x.div_spec(y))
        } else {
            None
        },
        _ => None,
    }
}

/// The remainder of `a / b`.
pub open spec fn modulo<T: Number>(a: Option<T>, b: Option<T>) -> Option<T> {
    match (a, b) {
        (Some(x), Some(y)) => if x.rem_req(y) {
            Some(x.rem_spec(y))
        } else {
            None
        },
        _ => None,
    }
}

/// `-a`.
pub open spec fn negated<T: Real>(a: Option<T>) -> Option<T> {
    match a {
        Some(x) => if x.neg_req() {
            Some(x.neg_spec())
        } else {
            None
        },
        None => None,
    }
}

/// `a` held between `low` and `high`; a number that compares with neither is
/// left as it is.
pub open spec fn clamped<T: Number>(a: Option<T>, low: T, high: T) -> Option<T> {
    match a {
        Some(x) => if x.is_lt(&low) {
            Some(low)
        } else if x.is_gt(&high) {
            Some(high)
        } else {
            Some(x)
        },
        None => None,
    }
}

/// Holds `x` between `low` and `high`.
pub fn clamp<T: Number>(x: T, low: T, high: T) -> (held: T)
    requires
        lawful::<T>(),
    ensures
        Some(held) == clamped(Some(x), low, high),
{
    if x < low {
        low
    } else if x > high {
        high
    } else {
        x
    }
}

/// The quotient of the integers `n` and `d`.
pub open spec fn quotient<T: Real>(n: int, d: int) -> Option<T> {
    over(whole(n), whole(d))
}

/// Divides the integer `n` by the integer `d`.
pub fn ratio<T: Real>(n: i32, d: i32) -> (q: T)
    requires
        lawful_real::<T>(),
        quotient::<T>(n as int, d as int) is Some,
    ensures
        Some(q) == quotient::<T>(n as int, d as int),
{
    T::from(n) / T::from(d)
}

/// Half a turn in radians. The binary fraction 884279719003555 / 2^48 is the
/// double-precision number nearest to it; the numerator is
/// 52707178 * 2^24 + 8947107, and every step below is exact in double precision.
pub open spec fn half_turn<T: Real>() -> Option<T> {
    let scale = whole::<T>(16777216);
    over(over(plus(times(whole(52707178), scale), whole(8947107)), scale), scale)
}

/// Computes half a turn in radians.
pub fn pi<T: Real>() -> (h: T)
    requires
        lawful_real::<T>(),
        half_turn::<T>() is Some,
    ensures
        Some(h) == half_turn::<T>(),
{
    let scale: T = T::from(16777216i32);
    (T::from(52707178i32) * scale + T::from(8947107i32)) / scale / scale
}

/// Machine integers meet these expectations.
pub proof fn law_integers_are_lawful()
    ensures
        lawful::<u8>(),
        lawful::<u16>(),
        lawful::<u32>(),
        lawful::<u64>(),
        lawful::<u128>(),
        lawful::<usize>(),
        lawful::<i8>(),
        lawful_signed::<i16>(),
        lawful_signed::<i32>(),
        lawful_signed::<i64>(),
        lawful_signed::<i128>(),
        lawful_signed::<isize>(),
        lawful_real::<i64>(),
        lawful_real::<i128>(),
        converts::<i32, i64>(),
{
}

} // verus!
