//! Where the motors are. Seen from above, with the front at the top:
//!
//! 0 1
//! 2 3
use crate::number::{lawful_signed, small, Signed};
use vstd::prelude::*;

verus! {

/// One for the motors on the left, minus one for those on the right.
pub open spec fn left<T: Signed>(i: int) -> Option<T> {
    small(if i % 2 == 0 { 1 } else { -1 })
}

/// Minus one for the motors on the left, one for those on the right.
pub open spec fn right<T: Signed>(i: int) -> Option<T> {
    small(if i % 2 == 0 { -1 } else { 1 })
}

/// Minus one for the motors in front, one for those in the back.
pub open spec fn back<T: Signed>(i: int) -> Option<T> {
    small(if i < 2 { -1 } else { 1 })
}

/// One for the motors in front, minus one for those in the back.
pub open spec fn front<T: Signed>(i: int) -> Option<T> {
    small(if i < 2 { 1 } else { -1 })
}

/// One if `positive`, and minus one if not.
pub fn sign<T: Signed>(positive: bool) -> (one: T)
    requires
        lawful_signed::<T>(),
    ensures
        Some(one) == small::<T>(if positive { 1 } else { -1 }),
{
    T::from(if positive { 1i8 } else { -1i8 })
}

} // verus!
