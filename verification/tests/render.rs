use path_tracing::camera::Camera;
use path_tracing::ray::Ray;
use path_tracing::render::{
    background, color, draw_samples, gamma, pixel_at, render_pixel, sample_point, trace_pixel,
    trace_scene, Sample, MAX_DEPTH,
};
use path_tracing::scattering::{Dielectric, Draw, Lambertian, Material, Metallic};
use path_tracing::sphere::Sphere;
use path_tracing::utilities::normalize;
use path_tracing::vector::Vec3;
use path_tracing::world::World;

type Scene = World<Sphere<f64, Material<f64>>>;

fn root(x: f64) -> f64 {
    x.sqrt()
}

/// A small generator of repeatable numbers in `[0, 1)`.
struct Generator(u64);

impl Generator {
    fn next(&mut self) -> f64 {
        self.0 = self
            .0
            .wrapping_mul(6364136223846793005)
            .wrapping_add(1442695040888963407);
        (self.0 >> 11) as f64 / (1u64 << 53) as f64
    }

    fn on_sphere(&mut self) -> Vec3<f64> {
        loop {
            let p = Vec3::new(
                2.0 * self.next() - 1.0,
                2.0 * self.next() - 1.0,
                2.0 * self.next() - 1.0,
            );
            let l = p.length_squared();
            if l > 1e-6 && l < 1.0 {
                return normalize(&p, &root);
            }
        }
    }

    fn in_disk(&mut self) -> (f64, f64) {
        loop {
            let (x, y) = (2.0 * self.next() - 1.0, 2.0 * self.next() - 1.0);
            if x * x + y * y < 1.0 {
                return (x, y);
            }
        }
    }

    fn draws(&mut self) -> Vec<Draw<f64>> {
        (0..MAX_DEPTH)
            .map(|_| Draw {
                direction: self.on_sphere(),
                chance: self.next(),
            })
            .collect()
    }

    fn sample(&mut self) -> Sample<f64> {
        Sample {
            dx: self.next(),
            dy: self.next(),
            lens: self.in_disk(),
            bounces: self.draws(),
        }
    }
}

/// A sampler whose numbers depend on the seed, the pixel and the path only.
fn seeded(seed: u64) -> impl Fn(u32, u32) -> Sample<f64> + Sync {
    move |pixel, path| {
        let key = ((pixel as u64) << 32) | path as u64;
        let mut generator = Generator(seed ^ key.wrapping_mul(0x9E37_79B9_7F4A_7C15));
        for _ in 0..4 {
            generator.next();
        }
        generator.sample()
    }
}

fn samples_of(sampler: &impl Fn(u32, u32) -> Sample<f64>, pixel: u32, n: u32) -> Vec<Sample<f64>> {
    (0..n).map(|path| sampler(pixel, path)).collect()
}

fn fixed_draws(direction: Vec3<f64>, chance: f64) -> Vec<Draw<f64>> {
    (0..MAX_DEPTH)
        .map(|_| Draw { direction, chance })
        .collect()
}

fn camera() -> Camera<f64> {
    Camera::new(
        Vec3::fill(0.0),
        Vec3::new(0.0, 0.0, -1.0),
        Vec3::new(0.0, 1.0, 0.0),
        90.0,
        1.0,
        0.0,
        1.0,
        &|_: f64| 1.0,
        &root,
    )
}

fn diffuse_ball(radius: f64) -> Scene {
    let mut world = World::new();
    world.push(Sphere {
        center: Vec3::new(0.0, 0.0, -3.0),
        radius,
        material: Material::Lambertian(Lambertian {
            albedo: Vec3::fill(0.5),
        }),
    });
    world
}

fn sky(direction: Vec3<f64>) -> Vec3<f64> {
    let unit = direction / direction.length_squared().sqrt();
    let t = 0.5 * (unit.y() + 1.0);
    Vec3::new(
        1.0 + (0.5 - 1.0) * t,
        1.0 + (0.7 - 1.0) * t,
        1.0 + (1.0 - 1.0) * t,
    )
}

#[test]
fn mapping_a_collection() {
    let columns = 4;
    let rows = 2;
    let pixels: Vec<(u32, u32)> = (0..rows * columns)
        .map(|index| pixel_at(index, columns))
        .collect();
    assert_eq!(
        pixels,
        vec![(0, 0), (1, 0), (2, 0), (3, 0), (0, 1), (1, 1), (2, 1), (3, 1)]
    );
}

#[test]
fn pixels_are_stored_row_by_row() {
    assert_eq!(pixel_at(0, 900), (0, 0));
    assert_eq!(pixel_at(899, 900), (899, 0));
    assert_eq!(pixel_at(900, 900), (0, 1));
    assert_eq!(pixel_at(539_999, 900), (899, 599));
    assert_eq!(pixel_at(7, 1), (0, 7));
    assert_eq!(pixel_at(u32::MAX, 65_536), (65_535, 65_535));
}

#[test]
fn sample_points_count_rows_downward() {
    assert_eq!(sample_point(1, 0, 2, 4, 0.5, 0.5), (0.375, 0.75));
    assert_eq!(sample_point(0, 0, 2, 4, 0.0, 0.0), (0.0, 1.0));
    assert_eq!(sample_point(3, 1, 2, 4, 0.5, 0.5), (0.875, 0.25));
    assert_eq!(sample_point(2, 5, 8, 4, 0.0, 1.0), (0.5, 0.25));
}

#[test]
fn gamma_takes_the_root_of_each_channel() {
    assert_eq!(
        gamma(&Vec3::new(0.25, 1.0, 0.0), &root),
        Vec3::new(0.5, 1.0, 0.0)
    );
    assert_eq!(
        gamma(&Vec3::new(0.04, 0.81, 4.0), &root),
        Vec3::new(0.04f64.sqrt(), 0.9, 2.0)
    );
}

#[test]
fn background_gradient() {
    let up = Ray::new(Vec3::fill(0.0), Vec3::new(0.0, 3.0, 0.0));
    assert_eq!(
        background(&up, &root),
        Vec3::new(0.5, 1.0 + (0.7 - 1.0), 1.0)
    );
    let down = Ray::new(Vec3::fill(0.0), Vec3::new(0.0, -0.5, 0.0));
    assert_eq!(background(&down, &root), Vec3::fill(1.0));
    let level = Ray::new(Vec3::new(5.0, 5.0, 5.0), Vec3::new(2.0, 0.0, 0.0));
    assert_eq!(
        background(&level, &root),
        Vec3::new(0.75, 1.0 + (0.7 - 1.0) * 0.5, 1.0)
    );
    let slanted = Vec3::new(1.0, 2.0, -2.0);
    assert_eq!(
        background(&Ray::new(Vec3::fill(0.0), slanted), &root),
        sky(slanted)
    );
}

#[test]
fn empty_scene_gives_the_background() {
    let world: Scene = World::new();
    let draws = fixed_draws(Vec3::new(0.0, 1.0, 0.0), 0.5);
    for direction in [
        Vec3::new(0.0, 0.0, -1.0),
        Vec3::new(1.0, 2.0, -2.0),
        Vec3::new(-0.3, -0.9, 0.1),
    ] {
        for depth in [0, 1, 49, 50, 200] {
            let ray = Ray::new(Vec3::new(1.0, 2.0, 3.0), direction);
            assert_eq!(color(&world, ray, depth, &draws, &root), sky(direction));
        }
    }
}

#[test]
fn depth_limit_gives_the_background() {
    let direction = Vec3::new(0.0, 0.0, -1.0);
    let draws = fixed_draws(Vec3::new(0.0, 1.0, 0.0), 0.5);
    let materials = [
        Material::Lambertian(Lambertian {
            albedo: Vec3::fill(0.5),
        }),
        Material::Metallic(Metallic {
            albedo: Vec3::fill(0.5),
            roughness: 0.0,
        }),
        Material::Dielectric(Dielectric {
            refractive_index: 1.5,
        }),
    ];
    for material in materials {
        let mut world = World::new();
        world.push(Sphere {
            center: Vec3::new(0.0, 0.0, -3.0),
            radius: 1.0,
            material,
        });
        for depth in [50, 51, 255] {
            let ray = Ray::new(Vec3::fill(0.0), direction);
            assert_eq!(color(&world, ray, depth, &draws, &root), sky(direction));
        }
    }
}

#[test]
fn last_scattering_is_just_below_the_limit() {
    let world = diffuse_ball(1.0);
    let draws = fixed_draws(Vec3::new(0.0, 1.0, 0.0), 0.5);
    let direction = Vec3::new(0.0, 0.0, -1.0);
    let ray = Ray::new(Vec3::fill(0.0), direction);
    assert_eq!(
        color(&world, ray, 49, &draws, &root),
        sky(Vec3::new(0.0, 1.0, 1.0)) * Vec3::fill(0.5)
    );
    let ray = Ray::new(Vec3::fill(0.0), direction);
    assert_eq!(color(&world, ray, 50, &draws, &root), sky(direction));
}

#[test]
fn trapped_ray_ends_at_the_depth_limit() {
    // Between two mirrors that face each other the ray goes up and down for
    // ever. After fifty scatterings the path ends with the colour of the
    // background, halved fifty times.
    let mut world = World::new();
    for y in [3.0, -3.0] {
        world.push(Sphere {
            center: Vec3::new(0.0, y, 0.0),
            radius: 1.0,
            material: Metallic {
                albedo: Vec3::fill(0.5),
                roughness: 0.0,
            },
        });
    }
    let draws = fixed_draws(Vec3::fill(0.0), 0.5);
    let up = Vec3::new(0.0, 1.0, 0.0);
    let seen = color(&world, Ray::new(Vec3::fill(0.0), up), 0, &draws, &root);
    assert_eq!(seen, sky(up) * Vec3::fill(0.5f64.powi(50)));
    let later = color(&world, Ray::new(Vec3::fill(0.0), up), 40, &draws, &root);
    assert_eq!(later, sky(up) * Vec3::fill(0.5f64.powi(10)));
    let odd = color(&world, Ray::new(Vec3::fill(0.0), up), 49, &draws, &root);
    assert_eq!(odd, sky(Vec3::new(0.0, -1.0, 0.0)) * Vec3::fill(0.5));
}

#[test]
fn one_diffuse_bounce() {
    let world = diffuse_ball(1.0);
    // The ray meets the ball at (0, 0, -2), where the normal is (0, 0, 1),
    // and leaves along (0, 1, 1), which meets nothing.
    let draws = fixed_draws(Vec3::new(0.0, 1.0, 0.0), 0.5);
    let ray = Ray::new(Vec3::fill(0.0), Vec3::new(0.0, 0.0, -1.0));
    let seen = color(&world, ray, 0, &draws, &root);
    assert_eq!(seen, sky(Vec3::new(0.0, 1.0, 1.0)) * Vec3::fill(0.5));
}

#[test]
fn absorbed_ray_is_black() {
    let mut world = World::new();
    world.push(Sphere {
        center: Vec3::new(0.0, 0.0, -3.0),
        radius: 1.0,
        material: Metallic {
            albedo: Vec3::fill(0.9),
            roughness: 2.0,
        },
    });
    let draws = fixed_draws(Vec3::new(0.0, 0.0, -1.0), 0.5);
    let ray = Ray::new(Vec3::fill(0.0), Vec3::new(0.0, 0.0, -1.0));
    assert_eq!(color(&world, ray, 0, &draws, &root), Vec3::fill(0.0));
}

#[test]
fn draws_are_taken_by_depth() {
    let world = diffuse_ball(1.0);
    let mut draws = fixed_draws(Vec3::new(0.0, 1.0, 0.0), 0.5);
    draws[7].direction = Vec3::new(1.0, 0.0, 0.0);
    let ray = Ray::new(Vec3::fill(0.0), Vec3::new(0.0, 0.0, -1.0));
    let seen = color(&world, ray, 7, &draws, &root);
    assert_eq!(seen, sky(Vec3::new(1.0, 0.0, 1.0)) * Vec3::fill(0.5));
}

#[test]
fn mirror_between_two_bounces() {
    // A mirror below sends the ray straight up into a diffuse ball above,
    // which scatters it aside into the sky.
    let mut world: Scene = World::new();
    world.push(Sphere {
        center: Vec3::new(0.0, -2.0, 0.0),
        radius: 1.0,
        material: Material::Metallic(Metallic {
            albedo: Vec3::new(0.8, 0.6, 0.4),
            roughness: 0.0,
        }),
    });
    world.push(Sphere {
        center: Vec3::new(0.0, 3.0, 0.0),
        radius: 1.0,
        material: Material::Lambertian(Lambertian {
            albedo: Vec3::new(0.5, 0.25, 1.0),
        }),
    });
    let draws = fixed_draws(Vec3::new(1.0, 0.0, 0.0), 0.5);
    let ray = Ray::new(Vec3::fill(0.0), Vec3::new(0.0, -1.0, 0.0));
    let seen = color(&world, ray, 0, &draws, &root);
    let expected =
        sky(Vec3::new(1.0, -1.0, 0.0)) * Vec3::new(0.5, 0.25, 1.0) * Vec3::new(0.8, 0.6, 0.4);
    assert_eq!(seen, expected);
}

#[test]
fn pixel_is_the_corrected_mean_of_its_samples() {
    let world: Scene = World::new();
    let camera = camera();
    let bounces = || fixed_draws(Vec3::new(0.0, 1.0, 0.0), 0.5);
    let samples = vec![
        Sample {
            dx: 0.25,
            dy: 0.5,
            lens: (0.0, 0.0),
            bounces: bounces(),
        },
        Sample {
            dx: 0.75,
            dy: 0.0,
            lens: (0.0, 0.0),
            bounces: bounces(),
        },
        Sample {
            dx: 0.5,
            dy: 0.5,
            lens: (0.0, 0.0),
            bounces: bounces(),
        },
    ];
    let seen = trace_pixel(&world, &camera, 1, 0, 2, 2, &samples, &root);

    let mut sum = Vec3::fill(0.0);
    for sample in &samples {
        let (u, v) = sample_point(1, 0, 2, 2, sample.dx, sample.dy);
        let ray = camera.make_ray(u, v, sample.lens);
        sum = sum + sky(ray.direction);
    }
    let mean = sum / 3.0;
    assert_eq!(
        seen,
        Vec3::new(mean.r().sqrt(), mean.g().sqrt(), mean.b().sqrt())
    );
}

#[test]
fn pixel_without_samples_is_not_a_number() {
    let world: Scene = World::new();
    let seen = trace_pixel(&world, &camera(), 0, 0, 2, 2, &Vec::new(), &root);
    assert!(seen.r().is_nan() && seen.g().is_nan() && seen.b().is_nan());
}

#[test]
fn rendering_is_repeatable_and_shows_the_ball() {
    let world = diffuse_ball(2.0);
    let nothing: Scene = World::new();
    let camera = camera();
    let first = trace_scene(&world, &camera, 2, 2, 16, &seeded(2024), &root);
    let again = trace_scene(&world, &camera, 2, 2, 16, &seeded(2024), &root);
    assert_eq!(first.len(), 4);
    assert_eq!(first, again);
    let other = trace_scene(&world, &camera, 2, 2, 16, &seeded(7), &root);
    assert_ne!(first, other);

    let empty = trace_scene(&nothing, &camera, 2, 2, 16, &seeded(2024), &root);
    for (seen, sky) in first.iter().zip(empty.iter()) {
        for (c, s) in seen.0.iter().zip(sky.0.iter()) {
            assert!(0.0 <= *c && *c <= 1.0);
            assert!(0.0 <= *s && *s <= 1.0);
            assert!(c < s);
        }
    }
}

#[test]
fn corners_show_the_background_and_the_centre_the_ball() {
    let world = diffuse_ball(0.5);
    let nothing: Scene = World::new();
    let camera = camera();
    let image = trace_scene(&world, &camera, 3, 3, 64, &seeded(99), &root);
    let empty = trace_scene(&nothing, &camera, 3, 3, 64, &seeded(99), &root);
    assert_eq!(image.len(), 9);
    for corner in [0, 2, 6, 8] {
        assert_eq!(image[corner], empty[corner]);
        assert_eq!(image[corner].b(), 1.0);
        assert!(image[4].b() < image[corner].b());
    }
    for channel in 0..3 {
        assert!(image[4].0[channel] < empty[4].0[channel]);
    }
}

#[test]
fn each_pixel_has_its_own_samples() {
    let world = diffuse_ball(1.0);
    let camera = camera();
    let sampler = seeded(5);
    let image = trace_scene(&world, &camera, 2, 3, 4, &sampler, &root);
    assert_eq!(image.len(), 6);
    for index in 0..6u32 {
        let (x, y) = pixel_at(index, 3);
        let samples = samples_of(&sampler, index, 4);
        let alone = trace_pixel(&world, &camera, x, y, 2, 3, &samples, &root);
        assert_eq!(image[index as usize], alone);
        assert_eq!(
            render_pixel(&world, &camera, 2, 3, 4, &sampler, &root, index),
            alone
        );
    }
}

#[test]
fn samples_are_asked_for_by_pixel_and_path() {
    let sampler = |pixel: u32, path: u32| Sample {
        dx: pixel as f64,
        dy: path as f64,
        lens: (0.0, 0.0),
        bounces: fixed_draws(Vec3::new(0.0, 1.0, 0.0), 0.5),
    };
    let samples = draw_samples(&sampler, 7, 3);
    assert_eq!(samples.len(), 3);
    for (path, sample) in samples.iter().enumerate() {
        assert_eq!(sample.dx, 7.0);
        assert_eq!(sample.dy, path as f64);
        assert_eq!(sample.bounces.len(), 50);
    }
    assert!(draw_samples(&sampler, 7, 0).is_empty());
}

#[test]
fn image_is_as_large_as_asked() {
    let world = diffuse_ball(1.0);
    let camera = camera();
    assert!(trace_scene(&world, &camera, 0, 5, 3, &seeded(1), &root).is_empty());
    assert!(trace_scene(&world, &camera, 5, 0, 3, &seeded(1), &root).is_empty());
    assert_eq!(
        trace_scene(&world, &camera, 5, 7, 1, &seeded(1), &root).len(),
        35
    );
    let unsampled = trace_scene(&world, &camera, 1, 2, 0, &seeded(1), &root);
    assert_eq!(unsampled.len(), 2);
    assert!(unsampled[0].r().is_nan() && unsampled[1].b().is_nan());
}
