use path_tracing::hitable::HitRecord;
use path_tracing::ray::Ray;
use path_tracing::scattering::{
    Dielectric, Draw, Lambertian, Material, Metallic, NaiveDielectric, Scattering,
};
use path_tracing::utilities::{normalize, reflect, refract};
use path_tracing::vector::Vec3;

fn root(x: f64) -> f64 {
    x.sqrt()
}

fn close(a: Vec3<f64>, b: Vec3<f64>) -> bool {
    (a - b).length(&root) < 1e-12
}

fn draw(direction: Vec3<f64>, chance: f64) -> Draw<f64> {
    Draw { direction, chance }
}

/// A meeting at the origin with the normal pointing up.
fn floor_hit(material: &()) -> HitRecord<'_, f64, ()> {
    HitRecord {
        t: 1.0,
        p: Vec3::fill(0.0),
        normal: Vec3::new(0.0, 1.0, 0.0),
        material,
    }
}

fn falling() -> Ray<f64> {
    Ray::new(Vec3::new(-1.0, 1.0, 0.0), Vec3::new(1.0, -1.0, 0.0))
}

#[test]
fn lambertian_always_scatters_with_its_albedo() {
    let albedo = Vec3::new(0.8, 0.3, 0.1);
    let surface = Lambertian { albedo };
    let hit = HitRecord {
        t: 2.0,
        p: Vec3::new(1.0, 2.0, 3.0),
        normal: Vec3::new(0.0, 1.0, 0.0),
        material: &(),
    };
    for direction in [
        Vec3::new(1.0, 0.0, 0.0),
        Vec3::new(0.0, -1.0, 0.0),
        Vec3::new(0.0, 0.6, -0.8),
        Vec3::fill(0.0),
    ] {
        let out = surface
            .scatter(&falling(), &hit, &draw(direction, 0.5), &root)
            .unwrap();
        assert_eq!(out.attenuation, albedo);
        assert_eq!(out.ray.origin, hit.p);
        assert_eq!(out.ray.direction, hit.p + hit.normal + direction - hit.p);
    }
}

#[test]
fn lambertian_scatters_towards_the_drawn_point() {
    let surface = Lambertian {
        albedo: Vec3::fill(0.5),
    };
    let out = surface
        .scatter(
            &falling(),
            &floor_hit(&()),
            &draw(Vec3::new(1.0, 0.0, 0.0), 0.0),
            &root,
        )
        .unwrap();
    assert_eq!(out.ray.direction, Vec3::new(1.0, 1.0, 0.0));
    assert_eq!(out.ray.origin, Vec3::fill(0.0));
}

#[test]
fn smooth_metal_mirrors_the_ray() {
    let surface = Metallic {
        albedo: Vec3::new(0.7, 0.6, 0.5),
        roughness: 0.0,
    };
    let out = surface
        .scatter(
            &falling(),
            &floor_hit(&()),
            &draw(Vec3::new(0.0, 0.0, 1.0), 0.5),
            &root,
        )
        .unwrap();
    assert_eq!(
        out.ray.direction,
        normalize(&Vec3::new(1.0, 1.0, 0.0), &root)
    );
    assert_eq!(out.ray.origin, Vec3::fill(0.0));
    assert_eq!(out.attenuation, Vec3::new(0.7, 0.6, 0.5));
}

#[test]
fn metal_reflects_rays_of_any_length_alike() {
    let surface = Metallic {
        albedo: Vec3::fill(1.0),
        roughness: 0.0,
    };
    let long = Ray::new(Vec3::new(-5.0, 5.0, 0.0), Vec3::new(5.0, -5.0, 0.0));
    let out = surface
        .scatter(&long, &floor_hit(&()), &draw(Vec3::fill(0.0), 0.5), &root)
        .unwrap();
    assert!(close(
        out.ray.direction,
        normalize(&Vec3::new(1.0, 1.0, 0.0), &root)
    ));
}

#[test]
fn rough_metal_adds_the_scaled_draw() {
    let surface = Metallic {
        albedo: Vec3::fill(1.0),
        roughness: 0.5,
    };
    let fuzz = Vec3::new(0.0, 0.0, 1.0);
    let out = surface
        .scatter(&falling(), &floor_hit(&()), &draw(fuzz, 0.5), &root)
        .unwrap();
    let mirrored = reflect(
        &normalize(&Vec3::new(1.0, -1.0, 0.0), &root),
        &Vec3::new(0.0, 1.0, 0.0),
    );
    assert_eq!(out.ray.direction, mirrored + fuzz * 0.5);
    assert_eq!(out.ray.direction.z(), 0.5);
}

#[test]
fn metal_absorbs_what_it_scatters_inward() {
    let surface = Metallic {
        albedo: Vec3::fill(1.0),
        roughness: 2.0,
    };
    let into = draw(Vec3::new(0.0, -1.0, 0.0), 0.5);
    assert!(surface
        .scatter(&falling(), &floor_hit(&()), &into, &root)
        .is_none());
    // A scattered ray along the surface does not leave it either.
    let along = Metallic {
        albedo: Vec3::fill(1.0),
        roughness: 0.0,
    };
    let skimming = Ray::new(Vec3::new(-1.0, 0.0, 0.0), Vec3::new(1.0, 0.0, 0.0));
    assert!(along
        .scatter(&skimming, &floor_hit(&()), &into, &root)
        .is_none());
}

#[test]
fn dielectric_of_index_one_lets_rays_through() {
    let glass = Dielectric {
        refractive_index: 1.0,
    };
    let straight = Ray::new(Vec3::new(0.0, 1.0, 0.0), Vec3::new(0.0, -1.0, 0.0));
    let out = glass
        .scatter(&straight, &floor_hit(&()), &draw(Vec3::fill(0.0), 0.5), &root)
        .unwrap();
    assert_eq!(out.ray.direction, Vec3::new(0.0, -1.0, 0.0));
    assert_eq!(out.attenuation, Vec3::fill(1.0));
    assert_eq!(out.ray.origin, Vec3::fill(0.0));

    let out = glass
        .scatter(&falling(), &floor_hit(&()), &draw(Vec3::fill(0.0), 0.5), &root)
        .unwrap();
    assert!(close(
        out.ray.direction,
        normalize(&Vec3::new(1.0, -1.0, 0.0), &root)
    ));

    // From inside, with the normal along the ray.
    let leaving = Ray::new(Vec3::new(0.0, -1.0, 0.0), Vec3::new(0.5, 1.0, 0.0));
    let out = glass
        .scatter(&leaving, &floor_hit(&()), &draw(Vec3::fill(0.0), 0.5), &root)
        .unwrap();
    assert!(close(
        out.ray.direction,
        normalize(&Vec3::new(0.5, 1.0, 0.0), &root)
    ));
}

#[test]
fn dielectric_refracts_when_the_draw_is_above_the_reflectance() {
    let glass = Dielectric {
        refractive_index: 1.5,
    };
    let normal = Vec3::new(0.0, 1.0, 0.0);
    let expected = refract(&Vec3::new(1.0, -1.0, 0.0), &normal, 1.0 / 1.5, &root).unwrap();
    let out = glass
        .scatter(&falling(), &floor_hit(&()), &draw(Vec3::fill(0.0), 0.999), &root)
        .unwrap();
    assert_eq!(out.ray.direction, expected);
    assert_eq!(out.attenuation, Vec3::fill(1.0));
}

#[test]
fn dielectric_reflects_when_the_draw_is_not_above_the_reflectance() {
    let glass = Dielectric {
        refractive_index: 1.5,
    };
    let out = glass
        .scatter(&falling(), &floor_hit(&()), &draw(Vec3::fill(0.0), 0.0), &root)
        .unwrap();
    assert_eq!(out.ray.direction, Vec3::new(1.0, 1.0, 0.0));
    assert_eq!(out.attenuation, Vec3::fill(1.0));
}

#[test]
fn dielectric_draw_is_compared_with_schlick() {
    // Head on, the reflectance of glass is ((1 - 1.5) / (1 + 1.5))^2, about 0.04.
    let glass = Dielectric {
        refractive_index: 1.5,
    };
    let straight = Ray::new(Vec3::new(0.0, 1.0, 0.0), Vec3::new(0.0, -1.0, 0.0));
    let through = glass
        .scatter(&straight, &floor_hit(&()), &draw(Vec3::fill(0.0), 0.05), &root)
        .unwrap();
    assert_eq!(through.ray.direction, Vec3::new(0.0, -1.0, 0.0));
    let back = glass
        .scatter(&straight, &floor_hit(&()), &draw(Vec3::fill(0.0), 0.03), &root)
        .unwrap();
    assert_eq!(back.ray.direction, Vec3::new(0.0, 1.0, 0.0));
}

#[test]
fn dielectric_reflects_totally_from_inside() {
    let glass = Dielectric {
        refractive_index: 1.5,
    };
    let grazing = Ray::new(Vec3::new(-1.0, -0.1, 0.0), Vec3::new(1.0, 0.1, 0.0));
    let out = glass
        .scatter(&grazing, &floor_hit(&()), &draw(Vec3::fill(0.0), 0.999), &root)
        .unwrap();
    assert_eq!(
        out.ray.direction,
        reflect(&Vec3::new(1.0, 0.1, 0.0), &Vec3::new(0.0, 1.0, 0.0))
    );
    assert!(out.ray.direction.y() < 0.0);
}

#[test]
fn naive_dielectric_refracts_whenever_it_can() {
    let glass = NaiveDielectric {
        refractive_index: 1.5,
    };
    let normal = Vec3::new(0.0, 1.0, 0.0);
    let expected = refract(&Vec3::new(1.0, -1.0, 0.0), &normal, 1.0 / 1.5, &root).unwrap();
    for chance in [0.0, 0.5, 0.999] {
        let out = glass
            .scatter(&falling(), &floor_hit(&()), &draw(Vec3::fill(0.0), chance), &root)
            .unwrap();
        assert_eq!(out.ray.direction, expected);
        assert_eq!(out.attenuation, Vec3::fill(1.0));
    }
    let grazing = Ray::new(Vec3::new(-1.0, -0.1, 0.0), Vec3::new(1.0, 0.1, 0.0));
    let out = glass
        .scatter(&grazing, &floor_hit(&()), &draw(Vec3::fill(0.0), 0.5), &root)
        .unwrap();
    assert_eq!(
        out.ray.direction,
        reflect(&Vec3::new(1.0, 0.1, 0.0), &normal)
    );
}

#[test]
fn naive_dielectric_leaves_against_the_turned_normal() {
    let glass = NaiveDielectric {
        refractive_index: 1.5,
    };
    let up = Ray::new(Vec3::new(0.0, -1.0, 0.0), Vec3::new(0.0, 3.0, 0.0));
    let out = glass
        .scatter(&up, &floor_hit(&()), &draw(Vec3::fill(0.0), 0.5), &root)
        .unwrap();
    assert_eq!(out.ray.direction, Vec3::new(0.0, 1.0, 0.0));
}

#[test]
fn material_scatters_as_what_it_holds() {
    let hit = floor_hit(&());
    let d = draw(Vec3::new(0.0, 0.0, 1.0), 0.5);

    let diffuse = Material::Lambertian(Lambertian {
        albedo: Vec3::fill(0.5),
    });
    let out = diffuse.scatter(&falling(), &hit, &d, &root).unwrap();
    assert_eq!(out.ray.direction, Vec3::new(0.0, 1.0, 1.0));
    assert_eq!(out.attenuation, Vec3::fill(0.5));

    let metal = Material::Metallic(Metallic {
        albedo: Vec3::fill(0.9),
        roughness: 0.0,
    });
    let out = metal.scatter(&falling(), &hit, &d, &root).unwrap();
    assert_eq!(
        out.ray.direction,
        normalize(&Vec3::new(1.0, 1.0, 0.0), &root)
    );

    let glass = Material::Dielectric(Dielectric {
        refractive_index: 1.5,
    });
    let out = glass.scatter(&falling(), &hit, &d, &root).unwrap();
    assert_eq!(out.attenuation, Vec3::fill(1.0));

    let naive = Material::NaiveDielectric(NaiveDielectric {
        refractive_index: 1.5,
    });
    let out = naive.scatter(&falling(), &hit, &draw(Vec3::fill(0.0), 0.0), &root);
    assert_eq!(
        out.unwrap().ray.direction,
        refract(
            &Vec3::new(1.0, -1.0, 0.0),
            &Vec3::new(0.0, 1.0, 0.0),
            1.0 / 1.5,
            &root
        )
        .unwrap()
    );

    let boxed = Box::new(Lambertian {
        albedo: Vec3::fill(0.25),
    });
    let out = boxed.scatter(&falling(), &hit, &d, &root).unwrap();
    assert_eq!(out.attenuation, Vec3::fill(0.25));
}
