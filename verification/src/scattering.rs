//! How materials send a ray on: diffuse, metallic and dielectric surfaces.

use crate::hitable::HitRecord;
use crate::ray::Ray;
use crate::scalar::{defined, exact, function_of, functional, number, spec_number, total, Scalar};
use crate::utilities::{
    dot, normalize, reflect, refract, schlick, spec_dot, spec_normalize, spec_reflect,
    spec_refract, spec_schlick,
};
use crate::vector::{spec_length, vec_add, vec_neg, vec_scale, vec_sub, Vec3};
use core::ops::Neg;
use vstd::prelude::*;
use vstd::std_specs::cmp::PartialOrdIs;
use vstd::std_specs::ops::{DivSpec, MulSpec, NegSpec, SubSpec};

verus! {

/// A ray after it has left a surface, and the share of each colour channel
/// that the surface lets through.
pub struct ScatteredRay<T> {
    pub ray: Ray<T>,
    pub attenuation: Vec3<T>,
}

/// The random numbers that one meeting of a ray with a surface may use.
pub struct Draw<T> {
    /// A point of the unit sphere, drawn uniformly.
    pub direction: Vec3<T>,
    /// A number of `[0, 1)`, drawn uniformly.
    pub chance: T,
}

/// A material: what becomes of a ray that meets it.
pub trait Scattering<T: Scalar> {
    /// The ray that leaves the point `p` of normal `normal` when `ray`
    /// arrives there, with its attenuation; `None` where the material
    /// absorbs the ray.
    spec fn spec_scatter(
        &self,
        ray: Ray<T>,
        p: Vec3<T>,
        normal: Vec3<T>,
        draw: Draw<T>,
        root: spec_fn(T) -> T,
    ) -> Option<ScatteredRay<T>>;

    /// Scatters `ray` at `hit`. `draw` holds the random numbers that the
    /// material may use and `root` takes square roots. `None` is full
    /// absorption.
    fn scatter<M, R: Fn(T) -> T>(
        &self,
        ray: &Ray<T>,
        hit: &HitRecord<'_, T, M>,
        draw: &Draw<T>,
        root: &R,
    ) -> (r: Option<ScatteredRay<T>>)
        requires
            total::<T>(),
            defined(*root),
        ensures
            exact::<T>() && functional(*root) ==> r == self.spec_scatter(
                *ray,
                hit.p,
                hit.normal,
                *draw,
                function_of(*root),
            ),
    ;
}

/// A perfectly diffuse surface.
pub struct Lambertian<T> {
    /// The share of each colour channel that the surface reflects.
    pub albedo: Vec3<T>,
}

/// The ray from `p` towards `p + normal + direction`, attenuated by `albedo`.
pub open spec fn spec_lambertian<T: Scalar>(
    albedo: Vec3<T>,
    p: Vec3<T>,
    normal: Vec3<T>,
    direction: Vec3<T>,
) -> ScatteredRay<T> {
    ScatteredRay {
        ray: Ray { origin: p, direction: vec_sub(vec_add(vec_add(p, normal), direction), p) },
        attenuation: albedo,
    }
}

impl<T: Scalar> Scattering<T> for Lambertian<T> {
    open spec fn spec_scatter(
        &self,
        ray: Ray<T>,
        p: Vec3<T>,
        normal: Vec3<T>,
        draw: Draw<T>,
        root: spec_fn(T) -> T,
    ) -> Option<ScatteredRay<T>> {
        Some(spec_lambertian(self.albedo, p, normal, draw.direction))
    }

    /// Always scatters, from the meeting point towards a random point of
    /// the unit sphere that touches the surface there; the attenuation is the
    /// albedo.
    fn scatter<M, R: Fn(T) -> T>(
        &self,
        ray: &Ray<T>,
        hit: &HitRecord<'_, T, M>,
        draw: &Draw<T>,
        root: &R,
    ) -> (r: Option<ScatteredRay<T>>)
        ensures
            r is Some,
            r->0.attenuation == self.albedo,
            r->0.ray.origin == hit.p,
    {
        let target = hit.p + hit.normal + draw.direction;
        let ray = Ray::new(hit.p, target - hit.p);
        Some(ScatteredRay { ray, attenuation: self.albedo })
    }
}

/// A mirror, blurred by its roughness.
pub struct Metallic<T> {
    /// The share of each colour channel that the surface reflects.
    pub albedo: Vec3<T>,
    /// How far the reflected ray may stray: the radius of the sphere of
    /// random offsets added to the mirror direction.
    pub roughness: T,
}

/// The direction in which a metal of roughness `roughness` sends on a ray of
/// direction `incoming`: the mirror image of its unit vector about `normal`,
/// plus `roughness` times `fuzz`.
pub open spec fn spec_metallic_direction<T: Scalar>(
    roughness: T,
    incoming: Vec3<T>,
    normal: Vec3<T>,
    fuzz: Vec3<T>,
    root: spec_fn(T) -> T,
) -> Vec3<T> {
    vec_add(spec_reflect(spec_normalize(incoming, root), normal), vec_scale(fuzz, roughness))
}

impl<T: Scalar> Scattering<T> for Metallic<T> {
    open spec fn spec_scatter(
        &self,
        ray: Ray<T>,
        p: Vec3<T>,
        normal: Vec3<T>,
        draw: Draw<T>,
        root: spec_fn(T) -> T,
    ) -> Option<ScatteredRay<T>> {
        let direction = spec_metallic_direction(
            self.roughness,
            ray.direction,
            normal,
            draw.direction,
            root,
        );
        if spec_dot(direction, normal).is_gt(&spec_number::<T>(0)) {
            Some(ScatteredRay { ray: Ray { origin: p, direction }, attenuation: self.albedo })
        } else {
            None
        }
    }

    /// Reflects the ray about the normal and blurs it by the roughness. The
    /// ray is absorbed unless it leaves on the side of the normal.
    fn scatter<M, R: Fn(T) -> T>(
        &self,
        ray: &Ray<T>,
        hit: &HitRecord<'_, T, M>,
        draw: &Draw<T>,
        root: &R,
    ) -> (r: Option<ScatteredRay<T>>)
        ensures
            r matches Some(scattered) ==> scattered.attenuation == self.albedo
                && scattered.ray.origin == hit.p,
    {
        let reflected = reflect(&normalize(ray.direction(), root), &hit.normal);
        let scattered = Ray::new(hit.p, reflected + draw.direction * self.roughness);
        if dot(scattered.direction(), &hit.normal) > number::<T>(0) {
            Some(ScatteredRay { attenuation: self.albedo, ray: scattered })
        } else {
            None
        }
    }
}

/// A clear material that refracts light, like glass, and reflects a share of
/// it that grows as the ray grazes the surface.
pub struct Dielectric<T> {
    pub refractive_index: T,
}

/// The vector `(1, 1, 1)`: no attenuation.
pub open spec fn spec_clear<T: Scalar>() -> Vec3<T> {
    Vec3([spec_number::<T>(1), spec_number::<T>(1), spec_number::<T>(1)])
}

/// Whether a ray of direction `incoming` leaves the medium at a surface of
/// normal `normal`: it does where the two point the same way.
pub open spec fn spec_leaves<T: Scalar>(incoming: Vec3<T>, normal: Vec3<T>) -> bool {
    spec_dot(incoming, normal).is_gt(&spec_number::<T>(0))
}

/// The normal against which the ray is refracted: `normal` turned round
/// where the ray leaves the medium.
pub open spec fn spec_outward_normal<T: Scalar>(incoming: Vec3<T>, normal: Vec3<T>) -> Vec3<T> {
    if spec_leaves(incoming, normal) {
        vec_neg(normal)
    } else {
        normal
    }
}

/// The ratio of the refractive indices, from the side the ray comes from to
/// the side it goes to: `n` where it leaves the medium, `1 / n` where it
/// enters.
pub open spec fn spec_index_ratio<T: Scalar>(n: T, incoming: Vec3<T>, normal: Vec3<T>) -> T {
    if spec_leaves(incoming, normal) {
        n
    } else {
        spec_number::<T>(1).div_spec(n)
    }
}

/// The cosine that goes into Schlick's polynomial. With `c` the cosine of
/// the angle between ray and normal, it is `root(1 - n * n * (1 - c * c))`
/// where the ray leaves the medium and `-c` where it enters.
pub open spec fn spec_cosine<T: Scalar>(
    n: T,
    incoming: Vec3<T>,
    normal: Vec3<T>,
    root: spec_fn(T) -> T,
) -> T {
    let d = spec_dot(incoming, normal);
    let length = spec_length(incoming, root);
    if spec_leaves(incoming, normal) {
        let c = d.div_spec(length);
        let one = spec_number::<T>(1);
        root(one.sub_spec(n.mul_spec(n).mul_spec(one.sub_spec(c.mul_spec(c)))))
    } else {
        d.neg_spec().div_spec(length)
    }
}

impl<T: Scalar> Scattering<T> for Dielectric<T> {
    open spec fn spec_scatter(
        &self,
        ray: Ray<T>,
        p: Vec3<T>,
        normal: Vec3<T>,
        draw: Draw<T>,
        root: spec_fn(T) -> T,
    ) -> Option<ScatteredRay<T>> {
        let n = self.refractive_index;
        let refracted = spec_refract(
            ray.direction,
            spec_outward_normal(ray.direction, normal),
            spec_index_ratio(n, ray.direction, normal),
            root,
        );
        let reflectance = spec_schlick(spec_cosine(n, ray.direction, normal, root), n);
        let direction = if refracted is Some && draw.chance.is_gt(&reflectance) {
            refracted->0
        } else {
            spec_reflect(ray.direction, normal)
        };
        Some(ScatteredRay { ray: Ray { origin: p, direction }, attenuation: spec_clear::<T>() })
    }

    /// Refracts the ray where Snell's law allows it and the draw is above
    /// the reflectance that Schlick's polynomial gives; reflects it
    /// otherwise. Nothing is absorbed and no colour is taken away.
    fn scatter<M, R: Fn(T) -> T>(
        &self,
        ray: &Ray<T>,
        hit: &HitRecord<'_, T, M>,
        draw: &Draw<T>,
        root: &R,
    ) -> (r: Option<ScatteredRay<T>>)
        ensures
            r is Some,
            r->0.ray.origin == hit.p,
    {
        let one = number::<T>(1);
        let attenuation = Vec3::new(one, one, one);
        let n = self.refractive_index;
        let d = dot(ray.direction(), hit.normal());
        let length = ray.direction().length(root);
        let outward_normal;
        let ni_over_nt;
        let cosine;
        if d > number::<T>(0) {
            outward_normal = hit.normal().neg();
            ni_over_nt = n;
            let c = d / length;
            cosine = root(one - n * n * (one - c * c));
        } else {
            outward_normal = *hit.normal();
            ni_over_nt = one / n;
            cosine = d.neg() / length;
        }
        if let Some(refracted) = refract(ray.direction(), &outward_normal, ni_over_nt, root) {
            let reflect_prob = schlick(cosine, n);
            if draw.chance > reflect_prob {
                return Some(ScatteredRay { ray: Ray::new(*hit.position(), refracted), attenuation });
            }
        }
        let reflected = reflect(ray.direction(), hit.normal());
        Some(ScatteredRay { ray: Ray::new(*hit.position(), reflected), attenuation })
    }
}

/// A clear material that refracts whenever Snell's law allows it, and
/// reflects only on total internal reflection.
pub struct NaiveDielectric<T> {
    pub refractive_index: T,
}

/// The vector `(0, 0, 0) - normal`.
pub open spec fn spec_turned<T: Scalar>(normal: Vec3<T>) -> Vec3<T> {
    vec_sub(Vec3([spec_number::<T>(0), spec_number::<T>(0), spec_number::<T>(0)]), normal)
}

impl<T: Scalar> Scattering<T> for NaiveDielectric<T> {
    open spec fn spec_scatter(
        &self,
        ray: Ray<T>,
        p: Vec3<T>,
        normal: Vec3<T>,
        draw: Draw<T>,
        root: spec_fn(T) -> T,
    ) -> Option<ScatteredRay<T>> {
        let outward_normal = if spec_leaves(ray.direction, normal) {
            spec_turned(normal)
        } else {
            normal
        };
        let refracted = spec_refract(
            ray.direction,
            outward_normal,
            spec_index_ratio(self.refractive_index, ray.direction, normal),
            root,
        );
        let direction = match refracted {
            Some(direction) => direction,
            None => spec_reflect(ray.direction, normal),
        };
        Some(ScatteredRay { ray: Ray { origin: p, direction }, attenuation: spec_clear::<T>() })
    }

    /// Refracts the ray where it can cross the surface and reflects it
    /// where it cannot. Nothing is absorbed and no colour is taken away.
    fn scatter<M, R: Fn(T) -> T>(
        &self,
        ray: &Ray<T>,
        hit: &HitRecord<'_, T, M>,
        draw: &Draw<T>,
        root: &R,
    ) -> (r: Option<ScatteredRay<T>>)
        ensures
            r is Some,
            r->0.ray.origin == hit.p,
    {
        let zero = number::<T>(0);
        let one = number::<T>(1);
        let attenuation = Vec3::new(one, one, one);
        let outward_normal;
        let ni_over_nt;
        if dot(ray.direction(), hit.normal()) > zero {
            outward_normal = &Vec3::new(zero, zero, zero) - hit.normal();
            ni_over_nt = self.refractive_index;
        } else {
            outward_normal = *hit.normal();
            ni_over_nt = one / self.refractive_index;
        }
        let direction = match refract(ray.direction(), &outward_normal, ni_over_nt, root) {
            Some(refracted) => refracted,
            None => reflect(ray.direction(), hit.normal()),
        };
        Some(ScatteredRay { ray: Ray::new(*hit.position(), direction), attenuation })
    }
}

/// One of the materials of this crate, for scenes that mix them.
pub enum Material<T> {
    Lambertian(Lambertian<T>),
    Metallic(Metallic<T>),
    Dielectric(Dielectric<T>),
    NaiveDielectric(NaiveDielectric<T>),
}

impl<T: Scalar> Scattering<T> for Material<T> {
    open spec fn spec_scatter(
        &self,
        ray: Ray<T>,
        p: Vec3<T>,
        normal: Vec3<T>,
        draw: Draw<T>,
        root: spec_fn(T) -> T,
    ) -> Option<ScatteredRay<T>> {
        match self {
            Material::Lambertian(m) => m.spec_scatter(ray, p, normal, draw, root),
            Material::Metallic(m) => m.spec_scatter(ray, p, normal, draw, root),
            Material::Dielectric(m) => m.spec_scatter(ray, p, normal, draw, root),
            Material::NaiveDielectric(m) => m.spec_scatter(ray, p, normal, draw, root),
        }
    }

    /// Scatters as the material inside does.
    fn scatter<M, R: Fn(T) -> T>(
        &self,
        ray: &Ray<T>,
        hit: &HitRecord<'_, T, M>,
        draw: &Draw<T>,
        root: &R,
    ) -> (r: Option<ScatteredRay<T>>) {
        match self {
            Material::Lambertian(m) => m.scatter(ray, hit, draw, root),
            Material::Metallic(m) => m.scatter(ray, hit, draw, root),
            Material::Dielectric(m) => m.scatter(ray, hit, draw, root),
            Material::NaiveDielectric(m) => m.scatter(ray, hit, draw, root),
        }
    }
}

impl<T: Scalar, S: Scattering<T>> Scattering<T> for Box<S> {
    open spec fn spec_scatter(
        &self,
        ray: Ray<T>,
        p: Vec3<T>,
        normal: Vec3<T>,
        draw: Draw<T>,
        root: spec_fn(T) -> T,
    ) -> Option<ScatteredRay<T>> {
        (**self).spec_scatter(ray, p, normal, draw, root)
    }

    /// Scatters as the material in the box does.
    fn scatter<M, R: Fn(T) -> T>(
        &self,
        ray: &Ray<T>,
        hit: &HitRecord<'_, T, M>,
        draw: &Draw<T>,
        root: &R,
    ) -> (r: Option<ScatteredRay<T>>) {
        (**self).scatter(ray, hit, draw, root)
    }
}

} // verus!
