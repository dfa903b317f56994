//! The scalar type of the engine and what is asked of it.
//!
//! Every type of this crate is generic over its scalar. The arithmetic is the
//! scalar's own `+ - * /`, unary `-` and `<`; whole numbers enter through
//! `From<u32>`; square roots and tangents are taken by functions that the
//! caller hands in. A contract states its result over the `add_spec`,
//! `mul_spec`, ... of the scalar's operators, and so pins it down for every
//! scalar whose operators return what these say.

use core::ops::{Add, Div, Mul, Neg, Sub};
use vstd::prelude::*;
use vstd::std_specs::cmp::PartialOrdSpec;
use vstd::std_specs::convert::FromSpec;
use vstd::std_specs::ops::{AddSpec, DivSpec, MulSpec, NegSpec, SubSpec};

verus! {

/// A copyable number with the four operations, negation, a partial order and
/// an embedding of the unsigned 32-bit integers.
pub trait Scalar: Copy + PartialOrd + From<u32> + Add<Output = Self> + Sub<Output = Self> + Mul<
    Output = Self,
> + Div<Output = Self> + Neg<Output = Self> {

}

impl<T> Scalar for T where
    T: Copy + PartialOrd + From<u32> + Add<Output = T> + Sub<Output = T> + Mul<Output = T> + Div<
        Output = T,
    > + Neg<Output = T>,
 {
}

/// Every operator of `T` accepts every pair of operands: no sum, difference,
/// product, quotient or negation is refused.
pub open spec fn total<T: Scalar>() -> bool {
    &&& forall|x: T, y: T| #[trigger] x.add_req(y)
    &&& forall|x: T, y: T| #[trigger] x.sub_req(y)
    &&& forall|x: T, y: T| #[trigger] x.mul_req(y)
    &&& forall|x: T, y: T| #[trigger] x.div_req(y)
    &&& forall|x: T| #[trigger] x.neg_req()
}

/// Every operator of `T`, its order and its embedding of the integers return
/// what `add_spec`, `sub_spec`, `mul_spec`, `div_spec`, `neg_spec`,
/// `partial_cmp_spec` and `from_spec` give for them.
pub open spec fn exact<T: Scalar>() -> bool {
    &&& T::obeys_add_spec()
    &&& T::obeys_sub_spec()
    &&& T::obeys_mul_spec()
    &&& T::obeys_div_spec()
    &&& T::obeys_neg_spec()
    &&& T::obeys_partial_cmp_spec()
    &&& T::obeys_from_spec()
}

/// The scalar that stands for the whole number `n`.
pub open spec fn spec_number<T: Scalar>(n: u32) -> T {
    T::from_spec(n)
}

/// The scalar that stands for the fraction `n / d`.
pub open spec fn spec_ratio<T: Scalar>(n: u32, d: u32) -> T {
    spec_number::<T>(n).div_spec(spec_number::<T>(d))
}

/// The scalar that stands for the whole number `n`.
pub fn number<T: Scalar>(n: u32) -> (r: T)
    ensures
        exact::<T>() ==> r == spec_number::<T>(n),
{
    T::from(n)
}

/// The scalar that stands for the fraction `n / d`.
pub fn ratio<T: Scalar>(n: u32, d: u32) -> (r: T)
    requires
        total::<T>(),
    ensures
        exact::<T>() ==> r == spec_ratio::<T>(n, d),
{
    number::<T>(n) / number::<T>(d)
}

/// `f` may be called on every scalar.
pub open spec fn defined<T, F: Fn(T) -> T>(f: F) -> bool {
    forall|x: T| #[trigger] f.requires((x,))
}

/// `f` returns one value on each scalar.
pub open spec fn functional<T, F: Fn(T) -> T>(f: F) -> bool {
    forall|x: T, y: T, z: T| #[trigger]
        f.ensures((x,), y) && #[trigger] f.ensures((x,), z) ==> y == z
}

/// What `f` returns on `x`.
pub open spec fn value_of<T, F: Fn(T) -> T>(f: F, x: T) -> T {
    choose|y: T| f.ensures((x,), y)
}

/// The function that contracts put for `f`: it sends `x` to what `f` returns
/// on `x`.
pub open spec fn function_of<T, F: Fn(T) -> T>(f: F) -> spec_fn(T) -> T {
    |x: T| value_of(f, x)
}

} // verus!
