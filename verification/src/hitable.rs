//! What a surface tells of the place where a ray meets it.

use crate::ray::Ray;
use crate::scalar::{defined, exact, function_of, functional, total, Scalar};
use crate::scattering::Scattering;
use crate::vector::Vec3;
use vstd::prelude::*;
use vstd::std_specs::cmp::PartialOrdIs;

verus! {

/// Where a ray met a surface. It lives as long as the surface it borrows the
/// material from.
pub struct HitRecord<'a, T, M> {
    /// The parameter of the ray at the meeting point.
    pub t: T,
    /// The meeting point.
    pub p: Vec3<T>,
    /// The surface normal there. It points away from the surface's inside,
    /// so it faces the ray only where the ray comes from outside.
    pub normal: Vec3<T>,
    /// The material of the surface.
    pub material: &'a M,
}

impl<'a, T: Scalar, M> HitRecord<'a, T, M> {
    /// The surface normal at the meeting point.
    pub fn normal(&self) -> (n: &Vec3<T>)
        ensures
            *n == self.normal,
    {
        &self.normal
    }

    /// The meeting point.
    pub fn position(&self) -> (p: &Vec3<T>)
        ensures
            *p == self.p,
    {
        &self.p
    }
}

/// A surface that a ray can meet.
pub trait Hitable<T: Scalar> {
    /// What the surface is made of.
    type Material: Scattering<T>;

    /// The first place, if any, at which `ray` meets the surface at a
    /// parameter strictly between `t_min` and `t_max`.
    spec fn spec_hit(&self, ray: Ray<T>, t_min: T, t_max: T, root: spec_fn(T) -> T) -> Option<
        HitRecord<'_, T, Self::Material>,
    >;

    /// Looks for the place where `ray` meets the surface at a parameter
    /// strictly between `t_min` and `t_max`; `root` takes square roots.
    fn hit<R: Fn(T) -> T>(&self, ray: &Ray<T>, t_min: T, t_max: T, root: &R) -> (r: Option<
        HitRecord<'_, T, Self::Material>,
    >)
        requires
            total::<T>(),
            defined(*root),
        ensures
            exact::<T>() && functional(*root) ==> r == self.spec_hit(
                *ray,
                t_min,
                t_max,
                function_of(*root),
            ),
    ;
}

/// `t` lies strictly between `t_min` and `t_max`.
pub open spec fn spec_within<T: Scalar>(t: T, t_min: T, t_max: T) -> bool {
    t.is_lt(&t_max) && t.is_gt(&t_min)
}

/// Whatever interval `item` is asked for, it reports a meeting of `ray` only
/// at a parameter strictly inside it.
pub open spec fn spec_keeps_bounds<T: Scalar, H: Hitable<T>>(
    item: H,
    ray: Ray<T>,
    root: spec_fn(T) -> T,
) -> bool {
    forall|low: T, high: T|
        (#[trigger] item.spec_hit(ray, low, high, root)) matches Some(hit) ==> spec_within(
            hit.t,
            low,
            high,
        )
}

} // verus!
