//! Products, interpolation, reflection and refraction.

use crate::scalar::{defined, exact, function_of, functional, number, spec_number, total, Scalar};
use crate::vector::{spec_length, vec_scale, vec_shrink, vec_sub, Vec3};
use core::ops::{Add, Mul, Neg, Sub};
use vstd::prelude::*;
use vstd::std_specs::cmp::PartialOrdIs;
use vstd::std_specs::ops::{AddSpec, DivSpec, MulSpec, NegSpec, SubSpec};

verus! {

/// The point `a + (b - a) * t` between `a` and `b`.
pub open spec fn spec_mix<T, U>(a: T, b: T, t: U) -> T where
    T: Copy + Add<T, Output = T> + Sub<T, Output = T> + Mul<U, Output = T>,
 {
    a.add_spec(b.sub_spec(a).mul_spec(t))
}

/// Every difference and sum in `T` and every product of a `T` by a `U` is
/// accepted.
pub open spec fn mix_total<T, U>() -> bool where
    T: Copy + Add<T, Output = T> + Sub<T, Output = T> + Mul<U, Output = T>,
 {
    &&& forall|x: T, y: T| #[trigger] x.add_req(y)
    &&& forall|x: T, y: T| #[trigger] x.sub_req(y)
    &&& forall|x: T, y: U| #[trigger] x.mul_req(y)
}

/// The difference and the product are what `sub_spec` and `mul_spec` give,
/// and the three operations that `a + (b - a) * t` is made of are accepted.
pub open spec fn mix_accepted<T, U>(a: T, b: T, t: U) -> bool where
    T: Copy + Add<T, Output = T> + Sub<T, Output = T> + Mul<U, Output = T>,
 {
    &&& T::obeys_sub_spec()
    &&& T::obeys_mul_spec()
    &&& b.sub_req(a)
    &&& b.sub_spec(a).mul_req(t)
    &&& a.add_req(b.sub_spec(a).mul_spec(t))
}

/// Linear interpolation between two like values: `a` at `t = 0`, `b` at
/// `t = 1`.
pub fn mix<T, U>(a: T, b: T, t: U) -> (r: T) where
    T: Copy + Add<T, Output = T> + Sub<T, Output = T> + Mul<U, Output = T>,

    requires
        mix_total::<T, U>() || mix_accepted(a, b, t),
    ensures
        T::obeys_add_spec() && T::obeys_sub_spec() && T::obeys_mul_spec() ==> r == spec_mix(
            a,
            b,
            t,
        ),
{
    a + (b - a) * t
}

/// The dot product `a.x * b.x + a.y * b.y + a.z * b.z`.
pub open spec fn spec_dot<T: Scalar>(a: Vec3<T>, b: Vec3<T>) -> T {
    a.0[0].mul_spec(b.0[0]).add_spec(a.0[1].mul_spec(b.0[1])).add_spec(a.0[2].mul_spec(b.0[2]))
}

/// The dot product of two vectors.
pub fn dot<T: Scalar>(a: &Vec3<T>, b: &Vec3<T>) -> (r: T)
    requires
        total::<T>(),
    ensures
        exact::<T>() ==> r == spec_dot(*a, *b),
{
    a.0[0] * b.0[0] + a.0[1] * b.0[1] + a.0[2] * b.0[2]
}

/// The cross product of `a` and `b`, the middle component written as the
/// negation of `a.x * b.z - a.z * b.x`.
pub open spec fn spec_cross<T: Scalar>(a: Vec3<T>, b: Vec3<T>) -> Vec3<T> {
    Vec3(
        [
            a.0[1].mul_spec(b.0[2]).sub_spec(a.0[2].mul_spec(b.0[1])),
            a.0[0].mul_spec(b.0[2]).sub_spec(a.0[2].mul_spec(b.0[0])).neg_spec(),
            a.0[0].mul_spec(b.0[1]).sub_spec(a.0[1].mul_spec(b.0[0])),
        ],
    )
}

/// The cross product of two vectors.
pub fn cross<T: Scalar>(a: &Vec3<T>, b: &Vec3<T>) -> (r: Vec3<T>)
    requires
        total::<T>(),
    ensures
        exact::<T>() ==> r == spec_cross(*a, *b),
{
    let ax = a.0[0];
    let ay = a.0[1];
    let az = a.0[2];
    let bx = b.0[0];
    let by = b.0[1];
    let bz = b.0[2];
    Vec3::new(ay * bz - az * by, (ax * bz - az * bx).neg(), ax * by - ay * bx)
}

/// `v` divided by its length, with `root` for the square root.
pub open spec fn spec_normalize<T: Scalar>(v: Vec3<T>, root: spec_fn(T) -> T) -> Vec3<T> {
    vec_shrink(v, spec_length(v, root))
}

/// The vector of the same direction as `vector` and of length one.
///
/// Each component is divided by the length, also where the length is zero:
/// the result is then whatever the scalar's division by zero gives.
pub fn normalize<T: Scalar, R: Fn(T) -> T>(vector: &Vec3<T>, root: &R) -> (r: Vec3<T>)
    requires
        total::<T>(),
        defined(*root),
    ensures
        exact::<T>() && functional(*root) ==> r == spec_normalize(*vector, function_of(*root)),
{
    *vector / vector.length(root)
}

/// The mirror image `v - n * 2 * dot(v, n)` of `v` about the normal `n`.
pub open spec fn spec_reflect<T: Scalar>(v: Vec3<T>, n: Vec3<T>) -> Vec3<T> {
    vec_sub(v, vec_scale(vec_scale(n, spec_number::<T>(2)), spec_dot(v, n)))
}

/// Reflects `vector` about `normal`.
pub fn reflect<T: Scalar>(vector: &Vec3<T>, normal: &Vec3<T>) -> (r: Vec3<T>)
    requires
        total::<T>(),
    ensures
        exact::<T>() ==> r == spec_reflect(*vector, *normal),
{
    *vector - *normal * number::<T>(2) * dot(vector, normal)
}

/// The quantity `1 - k * k * (1 - dt * dt)` whose sign decides whether a ray
/// that meets the normal at cosine `dt` is refracted, for the ratio `k` of
/// the refractive indices.
pub open spec fn spec_refraction_discriminant<T: Scalar>(dt: T, k: T) -> T {
    let one = spec_number::<T>(1);
    one.sub_spec(k.mul_spec(k).mul_spec(one.sub_spec(dt.mul_spec(dt))))
}

/// The refracted direction `(u - n * dt) * k - n * root(discriminant)` of
/// the unit vector `u` of `v`, where `dt = dot(u, n)`; `None` where the
/// discriminant is not above zero (total internal reflection).
pub open spec fn spec_refract<T: Scalar>(v: Vec3<T>, n: Vec3<T>, k: T, root: spec_fn(T) -> T)
    -> Option<Vec3<T>> {
    let u = spec_normalize(v, root);
    let dt = spec_dot(u, n);
    let discriminant = spec_refraction_discriminant(dt, k);
    if discriminant.is_gt(&spec_number::<T>(0)) {
        Some(
            vec_sub(
                vec_scale(vec_sub(u, vec_scale(n, dt)), k),
                vec_scale(n, root(discriminant)),
            ),
        )
    } else {
        None
    }
}

/// The direction of `vector` after it crosses a surface of normal `normal`,
/// by Snell's law with `ni_over_nt` for the ratio of the refractive indices;
/// `None` where the ray cannot cross.
pub fn refract<T: Scalar, R: Fn(T) -> T>(
    vector: &Vec3<T>,
    normal: &Vec3<T>,
    ni_over_nt: T,
    root: &R,
) -> (r: Option<Vec3<T>>)
    requires
        total::<T>(),
        defined(*root),
    ensures
        exact::<T>() && functional(*root) ==> r == spec_refract(
            *vector,
            *normal,
            ni_over_nt,
            function_of(*root),
        ),
{
    let unit = normalize(vector, root);
    let dt = dot(&unit, normal);
    let one = number::<T>(1);
    let discriminant = one - ni_over_nt * ni_over_nt * (one - dt * dt);
    if discriminant > number::<T>(0) {
        Some((unit - *normal * dt) * ni_over_nt - *normal * root(discriminant))
    } else {
        None
    }
}

/// The fifth power of `x`, by squaring twice and multiplying once.
pub open spec fn spec_fifth_power<T: Scalar>(x: T) -> T {
    let square = x.mul_spec(x);
    square.mul_spec(square).mul_spec(x)
}

/// Schlick's approximation `r0 + (1 - r0) * (1 - cosine)^5` of the share of
/// light that a surface reflects, where `r0 = ((1 - n) / (1 + n))^2` for the
/// refractive index `n`.
pub open spec fn spec_schlick<T: Scalar>(cosine: T, n: T) -> T {
    let one = spec_number::<T>(1);
    let q = one.sub_spec(n).div_spec(one.add_spec(n));
    let r0 = q.mul_spec(q);
    r0.add_spec(one.sub_spec(r0).mul_spec(spec_fifth_power(one.sub_spec(cosine))))
}

/// The probability of reflection at the cosine `cosine` of the angle of
/// incidence, by Schlick's polynomial.
pub fn schlick<T: Scalar>(cosine: T, refractive_index: T) -> (r: T)
    requires
        total::<T>(),
    ensures
        exact::<T>() ==> r == spec_schlick(cosine, refractive_index),
{
    let one = number::<T>(1);
    let q = (one - refractive_index) / (one + refractive_index);
    let r0 = q * q;
    let x = one - cosine;
    let square = x * x;
    r0 + (one - r0) * (square * square * x)
}

} // verus!
