//! The integrator, which follows one ray through the scene, and the driver,
//! which turns the samples of each pixel into its colour.

use crate::camera::{spec_make_ray, Camera};
use crate::hitable::Hitable;
use crate::ray::Ray;
use crate::scalar::{
    defined, exact, function_of, functional, number, ratio, spec_number, spec_ratio, total, Scalar,
};
use crate::scattering::{Draw, Scattering};
use crate::utilities::{mix, normalize, spec_mix, spec_normalize};
use crate::vector::{vec_add, vec_mul, vec_shrink, Vec3};
use crate::world::World;
use rayon::iter::{IntoParallelIterator, ParallelIterator};
use vstd::prelude::*;
use vstd::std_specs::ops::{AddSpec, DivSpec, MulSpec, SubSpec};

verus! {

/// The number of times a path may be scattered.
pub const MAX_DEPTH: u8 = 50;

/// The colour of the sky at the zenith: `(0.5, 0.7, 1)`.
pub open spec fn spec_sky<T: Scalar>() -> Vec3<T> {
    Vec3([spec_ratio::<T>(1, 2), spec_ratio::<T>(7, 10), spec_number::<T>(1)])
}

/// White: `(1, 1, 1)`.
pub open spec fn spec_white<T: Scalar>() -> Vec3<T> {
    Vec3([spec_number::<T>(1), spec_number::<T>(1), spec_number::<T>(1)])
}

/// Black: `(0, 0, 0)`.
pub open spec fn spec_black<T: Scalar>() -> Vec3<T> {
    Vec3([spec_number::<T>(0), spec_number::<T>(0), spec_number::<T>(0)])
}

/// The colour of the background in the direction of `ray`: white mixed
/// with the sky's blue by `0.5 * (y + 1)`, for `y` the height of the unit
/// vector of the direction.
pub open spec fn spec_background<T: Scalar>(ray: Ray<T>, root: spec_fn(T) -> T) -> Vec3<T> {
    let unit = spec_normalize(ray.direction, root);
    let t = spec_ratio::<T>(1, 2).mul_spec(unit.0[1].add_spec(spec_number::<T>(1)));
    spec_mix(spec_white::<T>(), spec_sky::<T>(), t)
}

/// The colour that a ray which leaves the scene brings back: a gradient
/// from white at the nadir to blue at the zenith.
pub fn background<T: Scalar, R: Fn(T) -> T>(ray: &Ray<T>, root: &R) -> (c: Vec3<T>)
    requires
        total::<T>(),
        defined(*root),
    ensures
        exact::<T>() && functional(*root) ==> c == spec_background(*ray, function_of(*root)),
{
    let one = number::<T>(1);
    let unit = normalize(ray.direction(), root);
    let t = ratio::<T>(1, 2) * (unit.y() + one);
    let white = Vec3::new(one, one, one);
    let sky = Vec3::new(ratio::<T>(1, 2), ratio::<T>(7, 10), one);
    mix(white, sky, t)
}

/// The least parameter at which a meeting counts, `0.001`: nearer ones are
/// taken for the surface that the ray has just left.
pub open spec fn spec_near<T: Scalar>() -> T {
    spec_ratio::<T>(1, 1000)
}

/// The bound below which a meeting counts: the scalar's quotient of one by
/// zero, which is infinity for a scalar that has one.
pub open spec fn spec_far<T: Scalar>() -> T {
    spec_ratio::<T>(1, 0)
}

/// The colour that comes back along `ray` after `depth` scatterings.
///
/// Below the depth limit, a ray that meets the scene is scattered by the
/// material it met, with the random numbers `draws[depth]`: an absorbed ray
/// is black, and one sent on brings the colour of the new ray, times the
/// attenuation. A ray that meets nothing, or has reached the limit, has the
/// colour of the background.
pub open spec fn spec_color<T: Scalar, W: Hitable<T>>(
    world: &W,
    ray: Ray<T>,
    depth: u8,
    draws: Seq<Draw<T>>,
    root: spec_fn(T) -> T,
) -> Vec3<T>
    decreases MAX_DEPTH - depth,
{
    if depth < MAX_DEPTH {
        match world.spec_hit(ray, spec_near::<T>(), spec_far::<T>(), root) {
            Some(hit) => match hit.material.spec_scatter(
                ray,
                hit.p,
                hit.normal,
                draws[depth as int],
                root,
            ) {
                Some(scattered) => vec_mul(
                    spec_color(world, scattered.ray, (depth + 1) as u8, draws, root),
                    scattered.attenuation,
                ),
                None => spec_black::<T>(),
            },
            None => spec_background(ray, root),
        }
    } else {
        spec_background(ray, root)
    }
}

/// Follows `ray` through `world` and returns the colour it brings back.
///
/// `depth` counts the scatterings so far and `draws[depth]` holds the random
/// numbers of the next one. The path ends at the background, at a material
/// that absorbs it, or after `MAX_DEPTH` scatterings.
pub fn color<T: Scalar, W: Hitable<T>, R: Fn(T) -> T>(
    world: &W,
    ray: Ray<T>,
    depth: u8,
    draws: &Vec<Draw<T>>,
    root: &R,
) -> (c: Vec3<T>)
    requires
        total::<T>(),
        defined(*root),
        draws.len() >= MAX_DEPTH,
    ensures
        exact::<T>() && functional(*root) ==> c == spec_color(
            world,
            ray,
            depth,
            draws@,
            function_of(*root),
        ),
    decreases MAX_DEPTH - depth,
{
    if depth < MAX_DEPTH {
        if let Some(hit) = world.hit(&ray, ratio::<T>(1, 1000), ratio::<T>(1, 0), root) {
            let zero = number::<T>(0);
            return match hit.material.scatter(&ray, &hit, &draws[depth as usize], root) {
                Some(reflection) => color(world, reflection.ray, depth + 1, draws, root)
                    * reflection.attenuation,
                None => Vec3::new(zero, zero, zero),
            };
        }
    }
    background(&ray, root)
}

/// In a scene without surfaces every ray has the colour of the
/// background, at whatever depth.
pub proof fn lemma_color_without_surfaces<T: Scalar, H: Hitable<T>>(
    world: &World<H>,
    ray: Ray<T>,
    depth: u8,
    draws: Seq<Draw<T>>,
    root: spec_fn(T) -> T,
)
    requires
        world@.len() == 0,
    ensures
        spec_color(world, ray, depth, draws, root) == spec_background(ray, root),
{
}

/// A ray that has been scattered `MAX_DEPTH` times or more has the colour of
/// the background, whatever it would meet.
pub proof fn lemma_color_at_depth_limit<T: Scalar, W: Hitable<T>>(
    world: &W,
    ray: Ray<T>,
    depth: u8,
    draws: Seq<Draw<T>>,
    root: spec_fn(T) -> T,
)
    requires
        depth >= MAX_DEPTH,
    ensures
        spec_color(world, ray, depth, draws, root) == spec_background(ray, root),
{
}

/// The random numbers of one path through a pixel.
pub struct Sample<T> {
    /// How far right of the pixel's left edge the path starts, in `[0, 1)`.
    pub dx: T,
    /// How far below the pixel's upper edge the path starts, in `[0, 1)`.
    pub dy: T,
    /// The point of the unit disk at which the path leaves the lens.
    pub lens: (T, T),
    /// The random numbers of each scattering, the first one first.
    pub bounces: Vec<Draw<T>>,
}

/// The zero-based column and row of the pixel that a row-major image of
/// `columns` columns stores at `index`.
pub fn pixel_at(index: u32, columns: u32) -> (r: (u32, u32))
    requires
        columns > 0,
    ensures
        r.0 == index % columns,
        r.1 == index / columns,
        r.0 < columns,
        r.1 * columns + r.0 == index,
{
    proof {
        vstd::arithmetic::div_mod::lemma_fundamental_div_mod(index as int, columns as int);
        vstd::arithmetic::mul::lemma_mul_is_commutative(
            columns as int,
            index as int / columns as int,
        );
    }
    (index % columns, index / columns)
}

/// The image coordinates of the point `(dx, dy)` of the pixel in column `x`
/// and row `y`: `(x + dx) / columns` across, and `1 - (y + dy) / rows` up,
/// as rows count downward and the image plane upward.
pub open spec fn spec_sample_point<T: Scalar>(
    x: u32,
    y: u32,
    rows: u32,
    columns: u32,
    dx: T,
    dy: T,
) -> (T, T) {
    (
        spec_number::<T>(x).add_spec(dx).div_spec(spec_number::<T>(columns)),
        spec_number::<T>(1).sub_spec(
            spec_number::<T>(y).add_spec(dy).div_spec(spec_number::<T>(rows)),
        ),
    )
}

/// Where on the image plane a path through the pixel `(x, y)` starts.
pub fn sample_point<T: Scalar>(x: u32, y: u32, rows: u32, columns: u32, dx: T, dy: T) -> (r: (
    T,
    T,
))
    requires
        total::<T>(),
    ensures
        exact::<T>() ==> r == spec_sample_point(x, y, rows, columns, dx, dy),
{
    let u = (number::<T>(x) + dx) / number::<T>(columns);
    let v = number::<T>(1) - (number::<T>(y) + dy) / number::<T>(rows);
    (u, v)
}

/// The colour that the path of `sample` brings to the pixel `(x, y)`.
pub open spec fn spec_sample_color<T: Scalar, W: Hitable<T>>(
    world: &W,
    camera: Camera<T>,
    x: u32,
    y: u32,
    rows: u32,
    columns: u32,
    sample: Sample<T>,
    root: spec_fn(T) -> T,
) -> Vec3<T> {
    let (u, v) = spec_sample_point(x, y, rows, columns, sample.dx, sample.dy);
    spec_color(world, spec_make_ray(camera, u, v, sample.lens), 0, sample.bounces@, root)
}

/// The sum of the colours of the paths of `samples`, added from first to
/// last onto black.
pub open spec fn spec_sum_colors<T: Scalar, W: Hitable<T>>(
    world: &W,
    camera: Camera<T>,
    x: u32,
    y: u32,
    rows: u32,
    columns: u32,
    samples: Seq<Sample<T>>,
    root: spec_fn(T) -> T,
) -> Vec3<T>
    decreases samples.len(),
{
    if samples.len() == 0 {
        spec_black::<T>()
    } else {
        vec_add(
            spec_sum_colors(world, camera, x, y, rows, columns, samples.drop_last(), root),
            spec_sample_color(world, camera, x, y, rows, columns, samples.last(), root),
        )
    }
}

/// The gamma correction of `linear` for a gamma of two: the root of each
/// channel.
pub open spec fn spec_gamma<T: Scalar>(linear: Vec3<T>, root: spec_fn(T) -> T) -> Vec3<T> {
    Vec3([root(linear.0[0]), root(linear.0[1]), root(linear.0[2])])
}

/// Gamma correction for display: the root of each channel.
pub fn gamma<T: Scalar, R: Fn(T) -> T>(linear: &Vec3<T>, root: &R) -> (c: Vec3<T>)
    requires
        defined(*root),
    ensures
        functional(*root) ==> c == spec_gamma(*linear, function_of(*root)),
{
    Vec3::new(root(linear.r()), root(linear.g()), root(linear.b()))
}

/// The colour of the pixel `(x, y)`: the mean of the colours of its paths,
/// gamma-corrected.
pub open spec fn spec_pixel<T: Scalar, W: Hitable<T>>(
    world: &W,
    camera: Camera<T>,
    x: u32,
    y: u32,
    rows: u32,
    columns: u32,
    samples: Seq<Sample<T>>,
    root: spec_fn(T) -> T,
) -> Vec3<T> {
    spec_gamma(
        vec_shrink(
            spec_sum_colors(world, camera, x, y, rows, columns, samples, root),
            spec_number::<T>(samples.len() as u32),
        ),
        root,
    )
}

/// Each path has the random numbers of `MAX_DEPTH` scatterings.
pub open spec fn spec_enough_draws<T>(samples: Seq<Sample<T>>) -> bool {
    forall|i: int| 0 <= i < samples.len() ==> (#[trigger] samples[i]).bounces.len() >= MAX_DEPTH
}

/// Renders the pixel in column `x` and row `y` of an image of `rows` rows
/// and `columns` columns: follows one path for each of `samples`, takes the
/// mean of their colours (the sum divided by their number, also where there
/// is none) and corrects it for display.
pub fn trace_pixel<T: Scalar, W: Hitable<T>, R: Fn(T) -> T>(
    world: &W,
    camera: &Camera<T>,
    x: u32,
    y: u32,
    rows: u32,
    columns: u32,
    samples: &Vec<Sample<T>>,
    root: &R,
) -> (c: Vec3<T>)
    requires
        total::<T>(),
        defined(*root),
        samples.len() <= u32::MAX,
        spec_enough_draws(samples@),
    ensures
        exact::<T>() && functional(*root) ==> c == spec_pixel(
            world,
            *camera,
            x,
            y,
            rows,
            columns,
            samples@,
            function_of(*root),
        ),
{
    let zero = number::<T>(0);
    let mut sum = Vec3::new(zero, zero, zero);
    let mut i: usize = 0;
    while i < samples.len()
        invariant
            i <= samples.len(),
            total::<T>(),
            defined(*root),
            spec_enough_draws(samples@),
            exact::<T>() && functional(*root) ==> sum == spec_sum_colors(
                world,
                *camera,
                x,
                y,
                rows,
                columns,
                samples@.take(i as int),
                function_of(*root),
            ),
        decreases samples.len() - i,
    {
        proof {
            assert(samples@.take(i + 1).drop_last() =~= samples@.take(i as int));
        }
        let sample = &samples[i];
        let (u, v) = sample_point(x, y, rows, columns, sample.dx, sample.dy);
        let ray = camera.make_ray(u, v, sample.lens);
        sum = sum + color(world, ray, 0, &sample.bounces, root);
        i += 1;
    }
    proof {
        assert(samples@.take(i as int) =~= samples@);
    }
    let linear = sum / number::<T>(samples.len() as u32);
    gamma(&linear, root)
}

/// `samples` are values that `sampler` may return for the paths of the pixel
/// stored at `pixel`, in the order of the paths.
pub open spec fn spec_drawn<T, S: Fn(u32, u32) -> Sample<T>>(
    sampler: S,
    pixel: u32,
    samples: Seq<Sample<T>>,
) -> bool {
    forall|k: int|
        0 <= k < samples.len() ==> sampler.ensures((pixel, k as u32), #[trigger] samples[k])
}

/// `sampler` may be called for every path of every pixel, and each sample it
/// returns has the random numbers of `MAX_DEPTH` scatterings.
pub open spec fn spec_sampler_ready<T, S: Fn(u32, u32) -> Sample<T>>(sampler: S) -> bool {
    &&& forall|pixel: u32, path: u32| #[trigger] sampler.requires((pixel, path))
    &&& forall|pixel: u32, path: u32, sample: Sample<T>| #[trigger]
        sampler.ensures((pixel, path), sample) ==> sample.bounces.len() >= MAX_DEPTH
}

/// `c` is a colour that the pixel stored at `index` may get: the corrected
/// mean over `num_samples` paths whose random numbers `sampler` may return
/// for that pixel.
pub open spec fn spec_rendered_pixel<T: Scalar, W: Hitable<T>, S: Fn(u32, u32) -> Sample<T>>(
    world: &W,
    camera: Camera<T>,
    rows: u32,
    columns: u32,
    num_samples: u32,
    sampler: S,
    root: spec_fn(T) -> T,
    index: u32,
    c: Vec3<T>,
) -> bool {
    exists|samples: Seq<Sample<T>>|
        {
            &&& samples.len() == num_samples
            &&& spec_drawn(sampler, index, samples)
            &&& c == #[trigger] spec_pixel(
                world,
                camera,
                index % columns,
                index / columns,
                rows,
                columns,
                samples,
                root,
            )
        }
}

/// Asks `sampler` for the random numbers of the paths `0`, `1`, ... of the
/// pixel stored at `pixel`.
pub fn draw_samples<T, S: Fn(u32, u32) -> Sample<T>>(sampler: &S, pixel: u32, num_samples: u32) -> (
    samples: Vec<Sample<T>>
)
    requires
        spec_sampler_ready(*sampler),
    ensures
        samples.len() == num_samples,
        spec_drawn(*sampler, pixel, samples@),
        spec_enough_draws(samples@),
{
    let mut samples: Vec<Sample<T>> = Vec::new();
    let mut path: u32 = 0;
    while path < num_samples
        invariant
            path <= num_samples,
            samples.len() == path,
            spec_sampler_ready(*sampler),
            spec_drawn(*sampler, pixel, samples@),
            spec_enough_draws(samples@),
        decreases num_samples - path,
    {
        let sample = sampler(pixel, path);
        samples.push(sample);
        path += 1;
    }
    samples
}

/// Renders the pixel that an image of `columns` columns stores at `index`,
/// with `num_samples` paths whose random numbers come from `sampler`.
pub fn render_pixel<T: Scalar, W: Hitable<T>, S: Fn(u32, u32) -> Sample<T>, R: Fn(T) -> T>(
    world: &W,
    camera: &Camera<T>,
    rows: u32,
    columns: u32,
    num_samples: u32,
    sampler: &S,
    root: &R,
    index: u32,
) -> (c: Vec3<T>)
    requires
        total::<T>(),
        defined(*root),
        spec_sampler_ready(*sampler),
        columns > 0,
    ensures
        exact::<T>() && functional(*root) ==> spec_rendered_pixel(
            world,
            *camera,
            rows,
            columns,
            num_samples,
            *sampler,
            function_of(*root),
            index,
            c,
        ),
{
    let (x, y) = pixel_at(index, columns);
    let samples = draw_samples(sampler, index, num_samples);
    trace_pixel(world, camera, x, y, rows, columns, &samples, root)
}

/// Computes `f(0)`, `f(1)`, ..., `f(n - 1)` on rayon's pool of threads, by
/// `into_par_iter`, `map` and `collect` on the range `0..n`, and returns
/// them in this order. It is taken on trust that each of the `n` places of
/// the result holds a value that `f` returned for the index of that place.
#[verifier::external_body]
fn parallel_map<O: Send, F: Fn(u32) -> O + Sync + Send>(n: u32, f: &F) -> (r: Vec<O>)
    requires
        forall|i: u32| i < n ==> #[trigger] f.requires((i,)),
    ensures
        r.len() == n,
        forall|i: int| 0 <= i < n ==> f.ensures((i as u32,), #[trigger] r[i]),
{
    (0..n).into_par_iter().map(f).collect()
}

/// Renders an image of `rows` rows and `columns` columns, stored row by row
/// from the top, each row from the left. Each pixel is the corrected mean of
/// `num_samples` paths; `sampler(i, k)` gives the random numbers of path `k`
/// of the pixel stored at `i`. The pixels are computed in parallel, each
/// from the samples of its own index alone.
pub fn trace_scene<T, W, S, R>(
    world: &W,
    camera: &Camera<T>,
    rows: u32,
    columns: u32,
    num_samples: u32,
    sampler: &S,
    root: &R,
) -> (colors: Vec<Vec3<T>>) where
    T: Scalar + Send + Sync,
    W: Hitable<T> + Sync,
    S: Fn(u32, u32) -> Sample<T> + Sync,
    R: Fn(T) -> T + Sync,

    requires
        total::<T>(),
        defined(*root),
        spec_sampler_ready(*sampler),
        rows * columns <= u32::MAX,
    ensures
        colors.len() == rows * columns,
        exact::<T>() && functional(*root) ==> forall|i: int|
            0 <= i < colors.len() ==> spec_rendered_pixel(
                world,
                *camera,
                rows,
                columns,
                num_samples,
                *sampler,
                function_of(*root),
                i as u32,
                #[trigger] colors[i],
            ),
{
    let pixels = rows * columns;
    let pixel = |index: u32| -> (c: Vec3<T>)
        requires
            index < pixels,
        ensures
            exact::<T>() && functional(*root) ==> spec_rendered_pixel(
                world,
                *camera,
                rows,
                columns,
                num_samples,
                *sampler,
                function_of(*root),
                index,
                c,
            ),
        {
            assert(columns > 0) by (nonlinear_arith)
                requires
                    index < rows * columns,
            ;
            render_pixel(world, camera, rows, columns, num_samples, sampler, root, index)
        };
    parallel_map(pixels, &pixel)
}

/// `sampler` returns one sample for each path of each pixel.
pub open spec fn spec_sampler_functional<T, S: Fn(u32, u32) -> Sample<T>>(sampler: S) -> bool {
    forall|pixel: u32, path: u32, a: Sample<T>, b: Sample<T>| #[trigger]
        sampler.ensures((pixel, path), a) && #[trigger] sampler.ensures((pixel, path), b) ==> a
            == b
}

/// With a sampler that returns one sample for each path of each pixel, a
/// pixel has one colour: scene, camera, size, number of paths, sampler and
/// root decide the image.
pub proof fn lemma_rendering_is_determined<T: Scalar, W: Hitable<T>, S: Fn(u32, u32) -> Sample<T>>(
    world: &W,
    camera: Camera<T>,
    rows: u32,
    columns: u32,
    num_samples: u32,
    sampler: S,
    root: spec_fn(T) -> T,
    index: u32,
    first: Vec3<T>,
    second: Vec3<T>,
)
    requires
        spec_sampler_functional(sampler),
        spec_rendered_pixel(world, camera, rows, columns, num_samples, sampler, root, index, first),
        spec_rendered_pixel(
            world,
            camera,
            rows,
            columns,
            num_samples,
            sampler,
            root,
            index,
            second,
        ),
    ensures
        first == second,
{
    let x = index % columns;
    let y = index / columns;
    let a = choose|samples: Seq<Sample<T>>|
        {
            &&& samples.len() == num_samples
            &&& spec_drawn(sampler, index, samples)
            &&& first == #[trigger] spec_pixel(world, camera, x, y, rows, columns, samples, root)
        };
    let b = choose|samples: Seq<Sample<T>>|
        {
            &&& samples.len() == num_samples
            &&& spec_drawn(sampler, index, samples)
            &&& second == #[trigger] spec_pixel(world, camera, x, y, rows, columns, samples, root)
        };
    assert forall|k: int| 0 <= k < a.len() implies a[k] == b[k] by {
        assert(sampler.ensures((index, k as u32), a[k]));
        assert(sampler.ensures((index, k as u32), b[k]));
    }
    assert(a =~= b);
}

} // verus!
