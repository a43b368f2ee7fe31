//! Numbers that compute as integers do. Laws on sizes, signs and sums are stated for
//! every such number type.
use crate::number::{converted, Number, Real, Signed};
use vstd::prelude::*;
use vstd::std_specs::cmp::{PartialOrdIs, PartialOrdSpec};
use vstd::std_specs::ops::{AddSpec, DivSpec, MulSpec, NegSpec, RemSpec, SubSpec};

verus! {

/// The quotient of `a` and `b`, rounded towards zero.
pub open spec fn truncated(a: int, b: int) -> int {
    if a >= 0 {
        a / b
    } else {
        -((-a) / b)
    }
}

/// What the division of `a` by `b`, rounded towards zero, leaves over.
pub open spec fn left_over(a: int, b: int) -> int {
    if a >= 0 {
        a % b
    } else {
        -((-a) % b)
    }
}

/// A way to read the numbers of a type as integers between `low` and `high`.
#[verifier::reject_recursive_types(T)]
pub struct Reading<T> {
    pub value: spec_fn(T) -> int,
    pub low: int,
    pub high: int,
}

impl<T: Number> Reading<T> {
    /// The integer that `a` is read as.
    pub open spec fn of(self, a: T) -> int {
        (self.value)(a)
    }

    /// `n` is one of the integers that can be read.
    pub open spec fn holds(self, n: int) -> bool {
        self.low <= n <= self.high
    }

    /// Read this way, the operators and comparisons of the type are those of the
    /// integers, and an operation is defined where its result can be held. The
    /// division is rounded towards zero, and where it is not defined, neither is the
    /// remainder.
    pub open spec fn exact(self) -> bool {
        &&& self.holds(0)
        &&& forall|a: T| self.holds(#[trigger] self.of(a))
        &&& forall|a: T, b: T| #[trigger] self.of(a) == #[trigger] self.of(b) ==> a == b
        &&& forall|a: T, b: T|
            #![trigger a.partial_cmp_spec(&b)]
            {
                &&& a.partial_cmp_spec(&b) is Some
                &&& a.is_lt(&b) <==> self.of(a) < self.of(b)
                &&& a.is_gt(&b) <==> self.of(a) > self.of(b)
            }
        &&& forall|a: T, b: T| #[trigger]
            a.add_req(b) <==> self.holds(self.of(a) + self.of(b))
        &&& forall|a: T, b: T|
            a.add_req(b) ==> self.of(#[trigger] a.add_spec(b)) == self.of(a) + self.of(b)
        &&& forall|a: T, b: T| #[trigger]
            a.sub_req(b) <==> self.holds(self.of(a) - self.of(b))
        &&& forall|a: T, b: T|
            a.sub_req(b) ==> self.of(#[trigger] a.sub_spec(b)) == self.of(a) - self.of(b)
        &&& forall|a: T, b: T| #[trigger]
            a.mul_req(b) <==> self.holds(self.of(a) * self.of(b))
        &&& forall|a: T, b: T|
            a.mul_req(b) ==> self.of(#[trigger] a.mul_spec(b)) == self.of(a) * self.of(b)
        &&& forall|a: T, b: T| #[trigger]
            a.div_req(b) <==> self.of(b) != 0 && self.holds(truncated(self.of(a), self.of(b)))
        &&& forall|a: T, b: T|
            a.div_req(b) ==> self.of(#[trigger] a.div_spec(b)) == truncated(self.of(a), self.of(b))
        &&& forall|a: T, b: T| #[trigger]
            a.rem_req(b) <==> self.of(b) != 0 && self.holds(truncated(self.of(a), self.of(b)))
        &&& forall|a: T, b: T|
            a.rem_req(b) ==> self.of(#[trigger] a.rem_spec(b)) == left_over(self.of(a), self.of(b))
    }
}

impl<T: Signed> Reading<T> {
    /// `exact`, and small integers are read as what they are.
    pub open spec fn exact_signed(self) -> bool {
        &&& self.exact()
        &&& forall|n: i8| self.of(#[trigger] converted::<i8, T>(n)) == n
    }
}

impl<T: Real> Reading<T> {
    /// `exact_signed`, and integers are read as what they are, and opposites as
    /// opposites.
    pub open spec fn exact_real(self) -> bool {
        &&& self.exact_signed()
        &&& forall|n: i32| self.of(#[trigger] converted::<i32, T>(n)) == n
        &&& forall|a: T| #[trigger] a.neg_req() <==> self.holds(-self.of(a))
        &&& forall|a: T| a.neg_req() ==> self.of(#[trigger] a.neg_spec()) == -self.of(a)
    }
}

/// Quotient and remainder of `a` and `b` are no larger than `a`, and the quotient is
/// the opposite of `a` where `b` is minus one.
spec fn bounded(a: int, b: int) -> bool {
    &&& a >= 0 ==> -a <= truncated(a, b) <= a && 0 <= left_over(a, b) <= a
    &&& a <= 0 ==> a <= truncated(a, b) <= -a && a <= left_over(a, b) <= 0
    &&& a != 0 ==> (truncated(a, b) == -a <==> b == -1)
    &&& b > 0 && a >= 0 ==> truncated(a, b) >= 0
}

/// Every quotient and remainder is so bounded.
proof fn lemma_division(a: int, b: int)
    requires
        b != 0,
    ensures
        bounded(a, b),
{
    let n: int = if a >= 0 {
        a
    } else {
        -a
    };
    assert(-n <= n / b <= n && 0 <= n % b <= n) by (nonlinear_arith)
        requires
            n >= 0,
            b != 0,
    ;
    if b == -1 {
        assert(n / b == -n) by (nonlinear_arith)
            requires
                b == -1,
        ;
    } else if n > 0 {
        assert(n / b > -n) by (nonlinear_arith)
            requires
                n > 0,
                b != 0,
                b != -1,
        ;
    }
    if b > 0 {
        assert(n / b >= 0) by (nonlinear_arith)
            requires
                n >= 0,
                b > 0,
        ;
    }
}

/// The same, wherever a quotient or a remainder is spoken of.
proof fn lemma_divisions()
    ensures
        forall|a: int, b: int|
            #![trigger truncated(a, b)]
            #![trigger left_over(a, b)]
            b != 0 ==> bounded(a, b),
{
    assert forall|a: int, b: int|
        #![trigger truncated(a, b)]
        #![trigger left_over(a, b)]
        b != 0 implies bounded(a, b) by {
        lemma_division(a, b);
    }
}

/// How numbers of type `i8` are read.
pub open spec fn i8_reading() -> Reading<i8> {
    Reading { value: |a: i8| a as int, low: i8::MIN as int, high: i8::MAX as int }
}

/// How numbers of type `i16` are read.
pub open spec fn i16_reading() -> Reading<i16> {
    Reading { value: |a: i16| a as int, low: i16::MIN as int, high: i16::MAX as int }
}

/// How numbers of type `i32` are read.
pub open spec fn i32_reading() -> Reading<i32> {
    Reading { value: |a: i32| a as int, low: i32::MIN as int, high: i32::MAX as int }
}

/// How numbers of type `i64` are read.
pub open spec fn i64_reading() -> Reading<i64> {
    Reading { value: |a: i64| a as int, low: i64::MIN as int, high: i64::MAX as int }
}

/// How numbers of type `i128` are read.
pub open spec fn i128_reading() -> Reading<i128> {
    Reading { value: |a: i128| a as int, low: i128::MIN as int, high: i128::MAX as int }
}

/// How numbers of type `isize` are read.
pub open spec fn isize_reading() -> Reading<isize> {
    Reading { value: |a: isize| a as int, low: isize::MIN as int, high: isize::MAX as int }
}

/// How numbers of type `u8` are read.
pub open spec fn u8_reading() -> Reading<u8> {
    Reading { value: |a: u8| a as int, low: u8::MIN as int, high: u8::MAX as int }
}

/// How numbers of type `u16` are read.
pub open spec fn u16_reading() -> Reading<u16> {
    Reading { value: |a: u16| a as int, low: u16::MIN as int, high: u16::MAX as int }
}

/// How numbers of type `u32` are read.
pub open spec fn u32_reading() -> Reading<u32> {
    Reading { value: |a: u32| a as int, low: u32::MIN as int, high: u32::MAX as int }
}

/// How numbers of type `u64` are read.
pub open spec fn u64_reading() -> Reading<u64> {
    Reading { value: |a: u64| a as int, low: u64::MIN as int, high: u64::MAX as int }
}

/// How numbers of type `u128` are read.
pub open spec fn u128_reading() -> Reading<u128> {
    Reading { value: |a: u128| a as int, low: u128::MIN as int, high: u128::MAX as int }
}

/// How numbers of type `usize` are read.
pub open spec fn usize_reading() -> Reading<usize> {
    Reading { value: |a: usize| a as int, low: usize::MIN as int, high: usize::MAX as int }
}

/// Machine integers compute as integers do, as far as they reach.
pub proof fn law_machine_integers_are_exact()
    ensures
        i8_reading().exact(),
        i16_reading().exact_signed(),
        i32_reading().exact_signed(),
        i64_reading().exact_real(),
        i128_reading().exact_real(),
        isize_reading().exact_signed(),
        u8_reading().exact(),
        u16_reading().exact(),
        u32_reading().exact(),
        u64_reading().exact(),
        u128_reading().exact(),
        usize_reading().exact(),
{
    lemma_divisions();
}

} // verus!
