//! Three-component vectors, used as points, directions and colours alike.

use crate::scalar::{defined, function_of, functional, total, Scalar};
use core::ops::{Add, Div, Mul, Neg, Sub};
use vstd::prelude::*;
use vstd::std_specs::ops::{AddSpec, DivSpec, MulSpec, NegSpec, SubSpec};

verus! {

/// A vector of three scalars.
#[derive(Debug, PartialEq, Copy)]
pub struct Vec3<T>(pub [T; 3]);

impl<T: Copy> Clone for Vec3<T> {
    fn clone(&self) -> (r: Self)
        ensures
            r == *self,
    {
        *self
    }
}

/// The componentwise sum `a + b`.
pub open spec fn vec_add<T: Scalar>(a: Vec3<T>, b: Vec3<T>) -> Vec3<T> {
    Vec3([a.0[0].add_spec(b.0[0]), a.0[1].add_spec(b.0[1]), a.0[2].add_spec(b.0[2])])
}

/// The componentwise difference `a - b`.
pub open spec fn vec_sub<T: Scalar>(a: Vec3<T>, b: Vec3<T>) -> Vec3<T> {
    Vec3([a.0[0].sub_spec(b.0[0]), a.0[1].sub_spec(b.0[1]), a.0[2].sub_spec(b.0[2])])
}

/// The componentwise product `a * b`.
pub open spec fn vec_mul<T: Scalar>(a: Vec3<T>, b: Vec3<T>) -> Vec3<T> {
    Vec3([a.0[0].mul_spec(b.0[0]), a.0[1].mul_spec(b.0[1]), a.0[2].mul_spec(b.0[2])])
}

/// The componentwise quotient `a / b`.
pub open spec fn vec_div<T: Scalar>(a: Vec3<T>, b: Vec3<T>) -> Vec3<T> {
    Vec3([a.0[0].div_spec(b.0[0]), a.0[1].div_spec(b.0[1]), a.0[2].div_spec(b.0[2])])
}

/// `a` with `k` added to each component.
pub open spec fn vec_offset<T: Scalar>(a: Vec3<T>, k: T) -> Vec3<T> {
    Vec3([a.0[0].add_spec(k), a.0[1].add_spec(k), a.0[2].add_spec(k)])
}

/// `a` with each component multiplied by `k`.
pub open spec fn vec_scale<T: Scalar>(a: Vec3<T>, k: T) -> Vec3<T> {
    Vec3([a.0[0].mul_spec(k), a.0[1].mul_spec(k), a.0[2].mul_spec(k)])
}

/// `a` with each component divided by `k`.
pub open spec fn vec_shrink<T: Scalar>(a: Vec3<T>, k: T) -> Vec3<T> {
    Vec3([a.0[0].div_spec(k), a.0[1].div_spec(k), a.0[2].div_spec(k)])
}

/// `a` with each component negated.
pub open spec fn vec_neg<T: Scalar>(a: Vec3<T>) -> Vec3<T> {
    Vec3([a.0[0].neg_spec(), a.0[1].neg_spec(), a.0[2].neg_spec()])
}

/// The sum of the squares of the components of `a`.
pub open spec fn spec_length_squared<T: Scalar>(a: Vec3<T>) -> T {
    a.0[0].mul_spec(a.0[0]).add_spec(a.0[1].mul_spec(a.0[1])).add_spec(a.0[2].mul_spec(a.0[2]))
}

/// The length of `a`, with `root` for the square root.
pub open spec fn spec_length<T: Scalar>(a: Vec3<T>, root: spec_fn(T) -> T) -> T {
    root(spec_length_squared(a))
}

impl<T: Scalar> Vec3<T> {
    /// The vector with the components `x`, `y` and `z`.
    pub fn new(x: T, y: T, z: T) -> (r: Vec3<T>)
        ensures
            r == Vec3([x, y, z]),
    {
        Vec3([x, y, z])
    }

    /// The vector whose three components are all `v`.
    pub fn fill(v: T) -> (r: Vec3<T>)
        ensures
            r == Vec3([v, v, v]),
    {
        Vec3([v, v, v])
    }

    /// The red channel: the first component.
    pub fn r(&self) -> (c: T)
        ensures
            c == self.0[0],
    {
        self.0[0]
    }

    /// The green channel: the second component.
    pub fn g(&self) -> (c: T)
        ensures
            c == self.0[1],
    {
        self.0[1]
    }

    /// The blue channel: the third component.
    pub fn b(&self) -> (c: T)
        ensures
            c == self.0[2],
    {
        self.0[2]
    }

    /// The first coordinate.
    pub fn x(&self) -> (c: T)
        ensures
            c == self.0[0],
    {
        self.0[0]
    }

    /// The second coordinate.
    pub fn y(&self) -> (c: T)
        ensures
            c == self.0[1],
    {
        self.0[1]
    }

    /// The third coordinate.
    pub fn z(&self) -> (c: T)
        ensures
            c == self.0[2],
    {
        self.0[2]
    }

    /// The squared length, which needs no square root.
    pub fn length_squared(&self) -> (r: T)
        requires
            total::<T>(),
        ensures
            T::obeys_add_spec() && T::obeys_mul_spec() ==> r == spec_length_squared(*self),
    {
        let x = self.0[0];
        let y = self.0[1];
        let z = self.0[2];
        x * x + y * y + z * z
    }

    /// The Euclidean length: `root` of the squared length.
    pub fn length<R: Fn(T) -> T>(&self, root: &R) -> (r: T)
        requires
            total::<T>(),
            defined(*root),
        ensures
            T::obeys_add_spec() && T::obeys_mul_spec() && functional(*root) ==> r == spec_length(
                *self,
                function_of(*root),
            ),
    {
        root(self.length_squared())
    }
}

impl<T: Scalar> vstd::std_specs::ops::AddSpecImpl<Vec3<T>> for Vec3<T> {
    open spec fn obeys_add_spec() -> bool {
        T::obeys_add_spec()
    }

    open spec fn add_req(self, rhs: Vec3<T>) -> bool {
        &&& self.0[0].add_req(rhs.0[0])
        &&& self.0[1].add_req(rhs.0[1])
        &&& self.0[2].add_req(rhs.0[2])
    }

    open spec fn add_spec(self, rhs: Vec3<T>) -> Vec3<T> {
        vec_add(self, rhs)
    }
}

impl<T: Scalar> Add<Vec3<T>> for Vec3<T> {
    type Output = Vec3<T>;

    /// Componentwise addition of two vectors.
    fn add(self, rhs: Vec3<T>) -> (r: Vec3<T>) {
        Vec3::new(self.0[0] + rhs.0[0], self.0[1] + rhs.0[1], self.0[2] + rhs.0[2])
    }
}

impl<'b, T: Scalar> vstd::std_specs::ops::AddSpecImpl<&'b Vec3<T>> for Vec3<T> {
    open spec fn obeys_add_spec() -> bool {
        T::obeys_add_spec()
    }

    open spec fn add_req(self, rhs: &'b Vec3<T>) -> bool {
        &&& self.0[0].add_req(rhs.0[0])
        &&& self.0[1].add_req(rhs.0[1])
        &&& self.0[2].add_req(rhs.0[2])
    }

    open spec fn add_spec(self, rhs: &'b Vec3<T>) -> Vec3<T> {
        vec_add(self, *rhs)
    }
}

impl<'b, T: Scalar> Add<&'b Vec3<T>> for Vec3<T> {
    type Output = Vec3<T>;

    /// Componentwise addition of two vectors.
    fn add(self, rhs: &'b Vec3<T>) -> (r: Vec3<T>) {
        Vec3::new(self.0[0] + rhs.0[0], self.0[1] + rhs.0[1], self.0[2] + rhs.0[2])
    }
}

impl<'a, T: Scalar> vstd::std_specs::ops::AddSpecImpl<Vec3<T>> for &'a Vec3<T> {
    open spec fn obeys_add_spec() -> bool {
        T::obeys_add_spec()
    }

    open spec fn add_req(self, rhs: Vec3<T>) -> bool {
        &&& self.0[0].add_req(rhs.0[0])
        &&& self.0[1].add_req(rhs.0[1])
        &&& self.0[2].add_req(rhs.0[2])
    }

    open spec fn add_spec(self, rhs: Vec3<T>) -> Vec3<T> {
        vec_add(*self, rhs)
    }
}

impl<'a, T: Scalar> Add<Vec3<T>> for &'a Vec3<T> {
    type Output = Vec3<T>;

    /// Componentwise addition of two vectors.
    fn add(self, rhs: Vec3<T>) -> (r: Vec3<T>) {
        Vec3::new(self.0[0] + rhs.0[0], self.0[1] + rhs.0[1], self.0[2] + rhs.0[2])
    }
}

impl<T: Scalar> vstd::std_specs::ops::AddSpecImpl<T> for Vec3<T> {
    open spec fn obeys_add_spec() -> bool {
        T::obeys_add_spec()
    }

    open spec fn add_req(self, rhs: T) -> bool {
        &&& self.0[0].add_req(rhs)
        &&& self.0[1].add_req(rhs)
        &&& self.0[2].add_req(rhs)
    }

    open spec fn add_spec(self, rhs: T) -> Vec3<T> {
        vec_offset(self, rhs)
    }
}

impl<T: Scalar> Add<T> for Vec3<T> {
    type Output = Vec3<T>;

    /// Adds a scalar to each component.
    fn add(self, rhs: T) -> (r: Vec3<T>) {
        Vec3::new(self.0[0] + rhs, self.0[1] + rhs, self.0[2] + rhs)
    }
}

impl<T: Scalar> vstd::std_specs::ops::SubSpecImpl<Vec3<T>> for Vec3<T> {
    open spec fn obeys_sub_spec() -> bool {
        T::obeys_sub_spec()
    }

    open spec fn sub_req(self, rhs: Vec3<T>) -> bool {
        &&& self.0[0].sub_req(rhs.0[0])
        &&& self.0[1].sub_req(rhs.0[1])
        &&& self.0[2].sub_req(rhs.0[2])
    }

    open spec fn sub_spec(self, rhs: Vec3<T>) -> Vec3<T> {
        vec_sub(self, rhs)
    }
}

impl<T: Scalar> Sub<Vec3<T>> for Vec3<T> {
    type Output = Vec3<T>;

    /// Componentwise subtraction of two vectors.
    fn sub(self, rhs: Vec3<T>) -> (r: Vec3<T>) {
        Vec3::new(self.0[0] - rhs.0[0], self.0[1] - rhs.0[1], self.0[2] - rhs.0[2])
    }
}

impl<'b, T: Scalar> vstd::std_specs::ops::SubSpecImpl<&'b Vec3<T>> for Vec3<T> {
    open spec fn obeys_sub_spec() -> bool {
        T::obeys_sub_spec()
    }

    open spec fn sub_req(self, rhs: &'b Vec3<T>) -> bool {
        &&& self.0[0].sub_req(rhs.0[0])
        &&& self.0[1].sub_req(rhs.0[1])
        &&& self.0[2].sub_req(rhs.0[2])
    }

    open spec fn sub_spec(self, rhs: &'b Vec3<T>) -> Vec3<T> {
        vec_sub(self, *rhs)
    }
}

impl<'b, T: Scalar> Sub<&'b Vec3<T>> for Vec3<T> {
    type Output = Vec3<T>;

    /// Componentwise subtraction of two vectors.
    fn sub(self, rhs: &'b Vec3<T>) -> (r: Vec3<T>) {
        Vec3::new(self.0[0] - rhs.0[0], self.0[1] - rhs.0[1], self.0[2] - rhs.0[2])
    }
}

impl<'a, 'b, T: Scalar> vstd::std_specs::ops::SubSpecImpl<&'b Vec3<T>> for &'a Vec3<T> {
    open spec fn obeys_sub_spec() -> bool {
        T::obeys_sub_spec()
    }

    open spec fn sub_req(self, rhs: &'b Vec3<T>) -> bool {
        &&& self.0[0].sub_req(rhs.0[0])
        &&& self.0[1].sub_req(rhs.0[1])
        &&& self.0[2].sub_req(rhs.0[2])
    }

    open spec fn sub_spec(self, rhs: &'b Vec3<T>) -> Vec3<T> {
        vec_sub(*self, *rhs)
    }
}

impl<'a, 'b, T: Scalar> Sub<&'b Vec3<T>> for &'a Vec3<T> {
    type Output = Vec3<T>;

    /// Componentwise subtraction of two vectors.
    fn sub(self, rhs: &'b Vec3<T>) -> (r: Vec3<T>) {
        Vec3::new(self.0[0] - rhs.0[0], self.0[1] - rhs.0[1], self.0[2] - rhs.0[2])
    }
}

impl<T: Scalar> vstd::std_specs::ops::MulSpecImpl<Vec3<T>> for Vec3<T> {
    open spec fn obeys_mul_spec() -> bool {
        T::obeys_mul_spec()
    }

    open spec fn mul_req(self, rhs: Vec3<T>) -> bool {
        &&& self.0[0].mul_req(rhs.0[0])
        &&& self.0[1].mul_req(rhs.0[1])
        &&& self.0[2].mul_req(rhs.0[2])
    }

    open spec fn mul_spec(self, rhs: Vec3<T>) -> Vec3<T> {
        vec_mul(self, rhs)
    }
}

impl<T: Scalar> Mul<Vec3<T>> for Vec3<T> {
    type Output = Vec3<T>;

    /// Componentwise multiplication of two vectors.
    fn mul(self, rhs: Vec3<T>) -> (r: Vec3<T>) {
        Vec3::new(self.0[0] * rhs.0[0], self.0[1] * rhs.0[1], self.0[2] * rhs.0[2])
    }
}

impl<'b, T: Scalar> vstd::std_specs::ops::MulSpecImpl<&'b Vec3<T>> for Vec3<T> {
    open spec fn obeys_mul_spec() -> bool {
        T::obeys_mul_spec()
    }

    open spec fn mul_req(self, rhs: &'b Vec3<T>) -> bool {
        &&& self.0[0].mul_req(rhs.0[0])
        &&& self.0[1].mul_req(rhs.0[1])
        &&& self.0[2].mul_req(rhs.0[2])
    }

    open spec fn mul_spec(self, rhs: &'b Vec3<T>) -> Vec3<T> {
        vec_mul(self, *rhs)
    }
}

impl<'b, T: Scalar> Mul<&'b Vec3<T>> for Vec3<T> {
    type Output = Vec3<T>;

    /// Componentwise multiplication of two vectors.
    fn mul(self, rhs: &'b Vec3<T>) -> (r: Vec3<T>) {
        Vec3::new(self.0[0] * rhs.0[0], self.0[1] * rhs.0[1], self.0[2] * rhs.0[2])
    }
}

impl<T: Scalar> vstd::std_specs::ops::MulSpecImpl<T> for Vec3<T> {
    open spec fn obeys_mul_spec() -> bool {
        T::obeys_mul_spec()
    }

    open spec fn mul_req(self, rhs: T) -> bool {
        &&& self.0[0].mul_req(rhs)
        &&& self.0[1].mul_req(rhs)
        &&& self.0[2].mul_req(rhs)
    }

    open spec fn mul_spec(self, rhs: T) -> Vec3<T> {
        vec_scale(self, rhs)
    }
}

impl<T: Scalar> Mul<T> for Vec3<T> {
    type Output = Vec3<T>;

    /// Multiplies each component by a scalar.
    fn mul(self, rhs: T) -> (r: Vec3<T>) {
        Vec3::new(self.0[0] * rhs, self.0[1] * rhs, self.0[2] * rhs)
    }
}

impl<'a, T: Scalar> vstd::std_specs::ops::MulSpecImpl<T> for &'a Vec3<T> {
    open spec fn obeys_mul_spec() -> bool {
        T::obeys_mul_spec()
    }

    open spec fn mul_req(self, rhs: T) -> bool {
        &&& self.0[0].mul_req(rhs)
        &&& self.0[1].mul_req(rhs)
        &&& self.0[2].mul_req(rhs)
    }

    open spec fn mul_spec(self, rhs: T) -> Vec3<T> {
        vec_scale(*self, rhs)
    }
}

impl<'a, T: Scalar> Mul<T> for &'a Vec3<T> {
    type Output = Vec3<T>;

    /// Multiplies each component by a scalar.
    fn mul(self, rhs: T) -> (r: Vec3<T>) {
        Vec3::new(self.0[0] * rhs, self.0[1] * rhs, self.0[2] * rhs)
    }
}

impl<T: Scalar> vstd::std_specs::ops::DivSpecImpl<Vec3<T>> for Vec3<T> {
    open spec fn obeys_div_spec() -> bool {
        T::obeys_div_spec()
    }

    open spec fn div_req(self, rhs: Vec3<T>) -> bool {
        &&& self.0[0].div_req(rhs.0[0])
        &&& self.0[1].div_req(rhs.0[1])
        &&& self.0[2].div_req(rhs.0[2])
    }

    open spec fn div_spec(self, rhs: Vec3<T>) -> Vec3<T> {
        vec_div(self, rhs)
    }
}

impl<T: Scalar> Div<Vec3<T>> for Vec3<T> {
    type Output = Vec3<T>;

    /// Componentwise division of two vectors.
    fn div(self, rhs: Vec3<T>) -> (r: Vec3<T>) {
        Vec3::new(self.0[0] / rhs.0[0], self.0[1] / rhs.0[1], self.0[2] / rhs.0[2])
    }
}

impl<'b, T: Scalar> vstd::std_specs::ops::DivSpecImpl<&'b Vec3<T>> for Vec3<T> {
    open spec fn obeys_div_spec() -> bool {
        T::obeys_div_spec()
    }

    open spec fn div_req(self, rhs: &'b Vec3<T>) -> bool {
        &&& self.0[0].div_req(rhs.0[0])
        &&& self.0[1].div_req(rhs.0[1])
        &&& self.0[2].div_req(rhs.0[2])
    }

    open spec fn div_spec(self, rhs: &'b Vec3<T>) -> Vec3<T> {
        vec_div(self, *rhs)
    }
}

impl<'b, T: Scalar> Div<&'b Vec3<T>> for Vec3<T> {
    type Output = Vec3<T>;

    /// Componentwise division of two vectors.
    fn div(self, rhs: &'b Vec3<T>) -> (r: Vec3<T>) {
        Vec3::new(self.0[0] / rhs.0[0], self.0[1] / rhs.0[1], self.0[2] / rhs.0[2])
    }
}

impl<T: Scalar> vstd::std_specs::ops::DivSpecImpl<T> for Vec3<T> {
    open spec fn obeys_div_spec() -> bool {
        T::obeys_div_spec()
    }

    open spec fn div_req(self, rhs: T) -> bool {
        &&& self.0[0].div_req(rhs)
        &&& self.0[1].div_req(rhs)
        &&& self.0[2].div_req(rhs)
    }

    open spec fn div_spec(self, rhs: T) -> Vec3<T> {
        vec_shrink(self, rhs)
    }
}

impl<T: Scalar> Div<T> for Vec3<T> {
    type Output = Vec3<T>;

    /// Divides each component by a scalar.
    fn div(self, rhs: T) -> (r: Vec3<T>) {
        Vec3::new(self.0[0] / rhs, self.0[1] / rhs, self.0[2] / rhs)
    }
}

impl<T: Scalar> vstd::std_specs::ops::NegSpecImpl for Vec3<T> {
    open spec fn obeys_neg_spec() -> bool {
        T::obeys_neg_spec()
    }

    open spec fn neg_req(self) -> bool {
        &&& self.0[0].neg_req()
        &&& self.0[1].neg_req()
        &&& self.0[2].neg_req()
    }

    open spec fn neg_spec(self) -> Vec3<T> {
        vec_neg(self)
    }
}

impl<T: Scalar> Neg for Vec3<T> {
    type Output = Vec3<T>;

    /// Negates each component.
    fn neg(self) -> (r: Vec3<T>) {
        Vec3::new(self.0[0].neg(), self.0[1].neg(), self.0[2].neg())
    }
}

impl<'a, T: Scalar> vstd::std_specs::ops::NegSpecImpl for &'a Vec3<T> {
    open spec fn obeys_neg_spec() -> bool {
        T::obeys_neg_spec()
    }

    open spec fn neg_req(self) -> bool {
        &&& self.0[0].neg_req()
        &&& self.0[1].neg_req()
        &&& self.0[2].neg_req()
    }

    open spec fn neg_spec(self) -> Vec3<T> {
        vec_neg(*self)
    }
}

impl<'a, T: Scalar> Neg for &'a Vec3<T> {
    type Output = Vec3<T>;

    /// Negates each component.
    fn neg(self) -> (r: Vec3<T>) {
        Vec3::new(self.0[0].neg(), self.0[1].neg(), self.0[2].neg())
    }
}

/// Vectors with the same three components are the same vector.
pub proof fn lemma_vec3_by_components<T>(a: Vec3<T>, b: Vec3<T>)
    requires
        a.0[0] == b.0[0],
        a.0[1] == b.0[1],
        a.0[2] == b.0[2],
    ensures
        a == b,
{
    assert(a.0 =~= b.0);
}

/// The scalar's sum does not depend on the order of its operands.
pub open spec fn add_commutes<T: Scalar>() -> bool {
    forall|x: T, y: T| #[trigger] x.add_spec(y) == y.add_spec(x)
}

/// The scalar's product does not depend on the order of its operands.
pub open spec fn mul_commutes<T: Scalar>() -> bool {
    forall|x: T, y: T| #[trigger] x.mul_spec(y) == y.mul_spec(x)
}

/// Each component of a sum, difference, product or quotient of two vectors
/// is the sum, difference, product or quotient of their components at that
/// place.
pub proof fn lemma_componentwise<T: Scalar>(a: Vec3<T>, b: Vec3<T>, i: int)
    requires
        0 <= i < 3,
    ensures
        vec_add(a, b).0[i] == a.0[i].add_spec(b.0[i]),
        vec_sub(a, b).0[i] == a.0[i].sub_spec(b.0[i]),
        vec_mul(a, b).0[i] == a.0[i].mul_spec(b.0[i]),
        vec_div(a, b).0[i] == a.0[i].div_spec(b.0[i]),
{
}

/// Over a scalar whose sum commutes, `a + b` is `b + a`.
pub proof fn lemma_vec_add_commutes<T: Scalar>(a: Vec3<T>, b: Vec3<T>)
    requires
        add_commutes::<T>(),
    ensures
        vec_add(a, b) == vec_add(b, a),
{
    lemma_vec3_by_components(vec_add(a, b), vec_add(b, a));
}

/// Over a scalar whose product commutes, `a * b` is `b * a`.
pub proof fn lemma_vec_mul_commutes<T: Scalar>(a: Vec3<T>, b: Vec3<T>)
    requires
        mul_commutes::<T>(),
    ensures
        vec_mul(a, b) == vec_mul(b, a),
{
    lemma_vec3_by_components(vec_mul(a, b), vec_mul(b, a));
}

} // verus!
