//! Rays: a starting point and a direction.

use crate::scalar::{total, Scalar};
use crate::vector::{lemma_vec3_by_components, vec_add, vec_scale, Vec3};
use vstd::prelude::*;
use vstd::std_specs::ops::{AddSpec, MulSpec};

verus! {

/// A half-line from `origin` along `direction`. The direction need not have
/// length one.
pub struct Ray<T> {
    pub origin: Vec3<T>,
    pub direction: Vec3<T>,
}

/// The point `origin + direction * t` of `ray`.
pub open spec fn spec_point_at<T: Scalar>(ray: Ray<T>, t: T) -> Vec3<T> {
    vec_add(ray.origin, vec_scale(ray.direction, t))
}

impl<T: Scalar> Ray<T> {
    /// The ray from `origin` along `direction`.
    pub fn new(origin: Vec3<T>, direction: Vec3<T>) -> (r: Ray<T>)
        ensures
            r == (Ray { origin, direction }),
    {
        Ray { origin, direction }
    }

    /// The point reached after the parameter `t`: `origin + direction * t`.
    pub fn point_at_parameter(&self, t: T) -> (p: Vec3<T>)
        requires
            total::<T>(),
        ensures
            T::obeys_add_spec() && T::obeys_mul_spec() ==> p == spec_point_at(*self, t),
    {
        &self.origin + (&self.direction * t)
    }

    /// Where the ray starts.
    pub fn origin(&self) -> (o: &Vec3<T>)
        ensures
            *o == self.origin,
    {
        &self.origin
    }

    /// Where the ray points.
    pub fn direction(&self) -> (d: &Vec3<T>)
        ensures
            *d == self.direction,
    {
        &self.direction
    }
}

/// At the parameter zero a ray is at its origin, for a zero that gives
/// itself when anything is multiplied by it and changes nothing that it is
/// added to.
pub proof fn lemma_point_at_zero<T: Scalar>(ray: Ray<T>, zero: T)
    requires
        forall|x: T| #[trigger] x.mul_spec(zero) == zero,
        forall|x: T| #[trigger] x.add_spec(zero) == x,
    ensures
        spec_point_at(ray, zero) == ray.origin,
{
    lemma_vec3_by_components(spec_point_at(ray, zero), ray.origin);
}

/// The point of a ray depends on the parameter through one product and one
/// sum in each coordinate: `origin[i] + direction[i] * t`.
pub proof fn lemma_point_at_is_affine<T: Scalar>(ray: Ray<T>, t: T, i: int)
    requires
        0 <= i < 3,
    ensures
        spec_point_at(ray, t).0[i] == ray.origin.0[i].add_spec(ray.direction.0[i].mul_spec(t)),
{
}

} // verus!
