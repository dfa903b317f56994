//! The camera: from a point of the image plane to a ray into the scene.

use crate::ray::Ray;
use crate::scalar::{defined, exact, function_of, functional, number, spec_number, total, Scalar};
use crate::utilities::{cross, normalize, spec_cross, spec_normalize};
use crate::vector::{lemma_vec3_by_components, vec_add, vec_scale, vec_sub, Vec3};
use vstd::prelude::*;
use vstd::std_specs::ops::{AddSpec, DivSpec, MulSpec};

verus! {

/// A thin-lens camera. All fields are fixed when the camera is made.
#[derive(Debug)]
pub struct Camera<T> {
    /// Where the camera stands: the centre of the lens.
    pub origin: Vec3<T>,
    /// The corner of the plane of focus that the image coordinates (0, 0) name.
    pub lower_left_corner: Vec3<T>,
    /// The width of the plane of focus, as a vector.
    pub horizontal: Vec3<T>,
    /// The height of the plane of focus, as a vector.
    pub vertical: Vec3<T>,
    /// Half the aperture.
    pub lens_radius: T,
    /// The unit vector to the camera's right.
    pub u: Vec3<T>,
    /// The unit vector upward in the camera's frame.
    pub v: Vec3<T>,
}

/// The camera at `origin` that looks at `target` with `up` upward and a
/// vertical field of view of `fov` degrees.
///
/// The frame is `w = normalize(origin - target)`, `u = normalize(cross(up, w))`
/// and `v = cross(w, u)`. With `half_height = tangent(fov / 2)` and
/// `half_width = aspect * half_height`, the plane of focus lies `focus_dist`
/// in front of the camera, is `2 * half_width * focus_dist` wide and
/// `2 * half_height * focus_dist` high, and the lens has the radius
/// `aperture / 2`.
pub open spec fn spec_camera<T: Scalar>(
    origin: Vec3<T>,
    target: Vec3<T>,
    up: Vec3<T>,
    fov: T,
    aspect: T,
    aperture: T,
    focus_dist: T,
    tangent: spec_fn(T) -> T,
    root: spec_fn(T) -> T,
) -> Camera<T> {
    let two = spec_number::<T>(2);
    let half_height = tangent(fov.div_spec(two));
    let half_width = aspect.mul_spec(half_height);
    let w = spec_normalize(vec_sub(origin, target), root);
    let u = spec_normalize(spec_cross(up, w), root);
    let v = spec_cross(w, u);
    Camera {
        origin,
        lower_left_corner: vec_sub(
            vec_sub(
                vec_sub(origin, vec_scale(vec_scale(u, half_width), focus_dist)),
                vec_scale(vec_scale(v, half_height), focus_dist),
            ),
            vec_scale(w, focus_dist),
        ),
        horizontal: vec_scale(vec_scale(vec_scale(u, two), focus_dist), half_width),
        vertical: vec_scale(vec_scale(vec_scale(v, two), focus_dist), half_height),
        lens_radius: aperture.div_spec(two),
        u,
        v,
    }
}

/// The ray of `camera` through the point `(s, t)` of the image, each in
/// `[0, 1]`, that leaves the lens at the point `disk` of the unit disk.
pub open spec fn spec_make_ray<T: Scalar>(camera: Camera<T>, s: T, t: T, disk: (T, T)) -> Ray<T> {
    let offset = vec_scale(
        vec_add(vec_scale(camera.u, disk.0), vec_scale(camera.v, disk.1)),
        camera.lens_radius,
    );
    let origin = vec_add(camera.origin, offset);
    Ray {
        origin,
        direction: vec_sub(
            vec_add(
                vec_add(camera.lower_left_corner, vec_scale(camera.horizontal, s)),
                vec_scale(camera.vertical, t),
            ),
            origin,
        ),
    }
}

impl<T: Scalar> Camera<T> {
    /// Builds the camera that stands at `origin` and looks at `target`.
    ///
    /// `fov` is the vertical field of view in degrees, `aspect` the width of
    /// the image over its height, `aperture` the diameter of the lens and
    /// `focus_dist` the distance at which the image is sharp. `tangent`
    /// gives the tangent of an angle in degrees and `root` the square root.
    pub fn new<G: Fn(T) -> T, R: Fn(T) -> T>(
        origin: Vec3<T>,
        target: Vec3<T>,
        up: Vec3<T>,
        fov: T,
        aspect: T,
        aperture: T,
        focus_dist: T,
        tangent: &G,
        root: &R,
    ) -> (camera: Camera<T>)
        requires
            total::<T>(),
            defined(*tangent),
            defined(*root),
        ensures
            camera.origin == origin,
            exact::<T>() && functional(*tangent) && functional(*root) ==> camera == spec_camera(
                origin,
                target,
                up,
                fov,
                aspect,
                aperture,
                focus_dist,
                function_of(*tangent),
                function_of(*root),
            ),
    {
        let two = number::<T>(2);
        let half_height = tangent(fov / two);
        let half_width = aspect * half_height;
        let w = normalize(&(origin - target), root);
        let u = normalize(&cross(&up, &w), root);
        let v = cross(&w, &u);
        let lower_left_corner = origin - u * half_width * focus_dist - v * half_height * focus_dist
            - w * focus_dist;
        let horizontal = u * two * focus_dist * half_width;
        let vertical = v * two * focus_dist * half_height;
        Camera {
            origin,
            lower_left_corner,
            horizontal,
            vertical,
            lens_radius: aperture / two,
            u,
            v,
        }
    }

    /// The ray through the point `(s, t)` of the image that leaves the lens
    /// at `disk`, a point of the unit disk scaled here by the lens radius. It
    /// starts on the lens and aims at the point of the plane of focus that
    /// `(s, t)` names; with an aperture of zero every ray starts at the
    /// camera's origin.
    pub fn make_ray(&self, s: T, t: T, disk: (T, T)) -> (ray: Ray<T>)
        requires
            total::<T>(),
        ensures
            exact::<T>() ==> ray == spec_make_ray(*self, s, t, disk),
    {
        let offset = (self.u * disk.0 + self.v * disk.1) * self.lens_radius;
        let origin = self.origin + offset;
        Ray::new(origin, self.lower_left_corner + self.horizontal * s + self.vertical * t - origin)
    }
}

/// A camera whose lens has the radius zero is a pinhole camera: every ray
/// starts at the camera's origin, wherever on the lens it was to leave. The
/// zero is one that gives itself when anything is multiplied by it and
/// changes nothing that it is added to.
pub proof fn lemma_pinhole<T: Scalar>(camera: Camera<T>, s: T, t: T, disk: (T, T))
    requires
        forall|x: T| #[trigger] x.mul_spec(camera.lens_radius) == camera.lens_radius,
        forall|x: T| #[trigger] x.add_spec(camera.lens_radius) == x,
    ensures
        spec_make_ray(camera, s, t, disk).origin == camera.origin,
{
    lemma_vec3_by_components(spec_make_ray(camera, s, t, disk).origin, camera.origin);
}

} // verus!
