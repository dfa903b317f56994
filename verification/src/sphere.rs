//! The sphere, and where a ray meets it.

use crate::hitable::{spec_keeps_bounds, spec_within, HitRecord, Hitable};
use crate::ray::{spec_point_at, Ray};
use crate::scalar::{exact, number, spec_number, total, Scalar};
use crate::scattering::Scattering;
use crate::utilities::{dot, spec_dot};
use crate::vector::{vec_shrink, vec_sub, Vec3};
use core::ops::Neg;
use vstd::prelude::*;
use vstd::std_specs::cmp::PartialOrdIs;
use vstd::std_specs::ops::{AddSpec, DivSpec, MulSpec, NegSpec, SubSpec};

verus! {

/// A sphere of one material.
pub struct Sphere<T, M> {
    pub center: Vec3<T>,
    pub radius: T,
    pub material: M,
}

/// The coefficients `(a, b, c)` of the equation `a t^2 + 2 b t + c = 0` whose
/// roots are the parameters at which `ray` meets the sphere round `center`
/// of radius `radius`.
pub open spec fn spec_quadratic<T: Scalar>(center: Vec3<T>, radius: T, ray: Ray<T>) -> (T, T, T) {
    let oc = vec_sub(ray.origin, center);
    (
        spec_dot(ray.direction, ray.direction),
        spec_dot(oc, ray.direction),
        spec_dot(oc, oc).sub_spec(radius.mul_spec(radius)),
    )
}

/// The discriminant `b^2 - a c` of that equation.
pub open spec fn spec_discriminant<T: Scalar>(q: (T, T, T)) -> T {
    q.1.mul_spec(q.1).sub_spec(q.0.mul_spec(q.2))
}

/// The smaller root `(-b - s) / a`, for `s` the root of the discriminant.
pub open spec fn spec_near_root<T: Scalar>(q: (T, T, T), s: T) -> T {
    q.1.neg_spec().sub_spec(s).div_spec(q.0)
}

/// The larger root `(-b + s) / a`, for `s` the root of the discriminant.
pub open spec fn spec_far_root<T: Scalar>(q: (T, T, T), s: T) -> T {
    q.1.neg_spec().add_spec(s).div_spec(q.0)
}

/// The record of `ray` meeting `sphere` at the parameter `t`: the point of
/// the ray there, and as normal the vector from the centre to that point
/// divided by the radius.
pub open spec fn spec_hit_at<'a, T: Scalar, M>(sphere: &'a Sphere<T, M>, ray: Ray<T>, t: T)
    -> HitRecord<'a, T, M> {
    let p = spec_point_at(ray, t);
    HitRecord {
        t,
        p,
        normal: vec_shrink(vec_sub(p, sphere.center), sphere.radius),
        material: &sphere.material,
    }
}

/// Where `ray` first meets `sphere` strictly between `t_min` and `t_max`.
///
/// There is no meeting unless the discriminant is above zero. Then the
/// smaller root is taken if it lies in the interval, else the larger one if
/// that does.
pub open spec fn spec_sphere_hit<'a, T: Scalar, M>(
    sphere: &'a Sphere<T, M>,
    ray: Ray<T>,
    t_min: T,
    t_max: T,
    root: spec_fn(T) -> T,
) -> Option<HitRecord<'a, T, M>> {
    let q = spec_quadratic(sphere.center, sphere.radius, ray);
    let discriminant = spec_discriminant(q);
    if discriminant.is_gt(&spec_number::<T>(0)) {
        let s = root(discriminant);
        let near = spec_near_root(q, s);
        let far = spec_far_root(q, s);
        if spec_within(near, t_min, t_max) {
            Some(spec_hit_at(sphere, ray, near))
        } else if spec_within(far, t_min, t_max) {
            Some(spec_hit_at(sphere, ray, far))
        } else {
            None
        }
    } else {
        None
    }
}

impl<T: Scalar, M> Sphere<T, M> {
    /// The record of `ray` meeting the sphere at the parameter `t`.
    fn record(&self, ray: &Ray<T>, t: T) -> (r: HitRecord<'_, T, M>)
        requires
            total::<T>(),
        ensures
            r.t == t,
            exact::<T>() ==> r == spec_hit_at(self, *ray, t),
    {
        let p = ray.point_at_parameter(t);
        HitRecord { t, p, normal: (&p - &self.center) / self.radius, material: &self.material }
    }
}

impl<T: Scalar, M: Scattering<T>> Hitable<T> for Sphere<T, M> {
    type Material = M;

    open spec fn spec_hit(&self, ray: Ray<T>, t_min: T, t_max: T, root: spec_fn(T) -> T) -> Option<
        HitRecord<'_, T, M>,
    > {
        spec_sphere_hit(self, ray, t_min, t_max, root)
    }

    /// Solves the quadratic equation of ray and sphere. A ray of direction
    /// zero has the discriminant zero, and so meets nothing: no quotient is
    /// taken for it.
    fn hit<R: Fn(T) -> T>(&self, ray: &Ray<T>, t_min: T, t_max: T, root: &R) -> (r: Option<
        HitRecord<'_, T, M>,
    >) {
        let oc = ray.origin() - &self.center;
        let a = dot(ray.direction(), ray.direction());
        let b = dot(&oc, ray.direction());
        let c = dot(&oc, &oc) - self.radius * self.radius;
        let discriminant = b * b - a * c;
        if discriminant > number::<T>(0) {
            let s = root(discriminant);
            let near = (b.neg() - s) / a;
            if near < t_max && near > t_min {
                return Some(self.record(ray, near));
            }
            let far = (b.neg() + s) / a;
            if far < t_max && far > t_min {
                return Some(self.record(ray, far));
            }
        }
        None
    }
}

/// A sphere reports a meeting only at a parameter strictly between the
/// bounds it was asked for.
pub proof fn lemma_sphere_hit_within<T: Scalar, M>(
    sphere: &Sphere<T, M>,
    ray: Ray<T>,
    t_min: T,
    t_max: T,
    root: spec_fn(T) -> T,
)
    ensures
        spec_sphere_hit(sphere, ray, t_min, t_max, root) matches Some(h) ==> spec_within(
            h.t,
            t_min,
            t_max,
        ),
{
}

/// A ray whose discriminant is not above zero meets nothing: one that
/// passes the sphere, one that only touches it, one without direction.
pub proof fn lemma_sphere_miss<T: Scalar, M>(
    sphere: &Sphere<T, M>,
    ray: Ray<T>,
    t_min: T,
    t_max: T,
    root: spec_fn(T) -> T,
)
    requires
        !spec_discriminant(spec_quadratic(sphere.center, sphere.radius, ray)).is_gt(
            &spec_number::<T>(0),
        ),
    ensures
        spec_sphere_hit(sphere, ray, t_min, t_max, root) is None,
{
}

/// A ray without direction meets no sphere, and no quotient is taken to
/// find that out. The zero of the scalar is asked to give itself when it is
/// multiplied by anything, added to itself or taken from itself, and not to
/// be above itself.
pub proof fn lemma_ray_without_direction_misses<T: Scalar, M>(
    sphere: &Sphere<T, M>,
    ray: Ray<T>,
    t_min: T,
    t_max: T,
    root: spec_fn(T) -> T,
)
    requires
        ({
            let zero = spec_number::<T>(0);
            &&& ray.direction == Vec3([zero, zero, zero])
            &&& forall|x: T| #[trigger] x.mul_spec(zero) == zero
            &&& forall|x: T| #[trigger] zero.mul_spec(x) == zero
            &&& zero.add_spec(zero) == zero
            &&& zero.sub_spec(zero) == zero
            &&& !zero.is_gt(&zero)
        }),
    ensures
        spec_sphere_hit(sphere, ray, t_min, t_max, root) is None,
{
    let zero = spec_number::<T>(0);
    let q = spec_quadratic(sphere.center, sphere.radius, ray);
    assert(q.0 == zero);
    assert(q.1 == zero);
    assert(spec_discriminant(q) == zero);
}

/// A sphere keeps to every interval it is asked for.
pub proof fn lemma_sphere_keeps_bounds<T: Scalar, M: Scattering<T>>(
    sphere: Sphere<T, M>,
    ray: Ray<T>,
    root: spec_fn(T) -> T,
)
    ensures
        spec_keeps_bounds(sphere, ray, root),
{
    assert forall|low: T, high: T|
        (#[trigger] sphere.spec_hit(ray, low, high, root)) matches Some(hit) ==> spec_within(
            hit.t,
            low,
            high,
        ) by {
        lemma_sphere_hit_within(&sphere, ray, low, high, root);
    }
}

} // verus!
