//! End-to-end checks of the fixed-point tracing core.

use rayo::camera::Camera;
use rayo::color::Color;
use rayo::fixed::{fx_add, fx_div, fx_mul, fx_sqrt, fx_sub, SCALE};
use rayo::intersection::aab::AxisAlignedBox;
use rayo::intersection::scene::{Background, Primitive, Scene};
use rayo::intersection::sphere::Sphere;
use rayo::intersection::Hittable;
use rayo::material::Material;
use rayo::prng::Prng;
use rayo::ray::Ray;
use rayo::render::{ray_color, render_pixel};
use rayo::texture::Texture;
use rayo::vec::Vec3;

fn fx(units: i64) -> i64 {
    units * SCALE
}

fn gray_lambertian() -> Material {
    Material::Lambertian { albedo: Texture::new_constant(SCALE / 2, SCALE / 2, SCALE / 2) }
}

#[test]
fn test_sphere_hit() {
    let s = Sphere {
        radius: SCALE / 2,
        center: Vec3::new(0, 0, -SCALE),
        material: gray_lambertian(),
    };

    let ray = Ray::new(Vec3::zero(), Vec3::new(0, 0, -SCALE));
    let hit = s.intersect(&ray, 66, i64::MAX).unwrap();

    // normal should be normalized
    assert_eq!(hit.normal.norm(), SCALE);

    // normal should face towards camera
    assert_eq!(hit.normal, Vec3::new(0, 0, SCALE));

    // intersection point should be at -0.5
    assert_eq!(hit.point, Vec3::new(0, 0, -SCALE / 2));
}

#[test]
fn test_sphere_scenario_exact() {
    let s = Sphere {
        radius: SCALE / 2,
        center: Vec3::new(0, 0, -SCALE),
        material: gray_lambertian(),
    };
    let ray = Ray::new(Vec3::zero(), Vec3::new(0, 0, -SCALE));
    let hit = s.intersect(&ray, 6554, i64::MAX).unwrap();
    assert_eq!(hit.t, SCALE / 2);
    assert_eq!(hit.point, Vec3::new(0, 0, -SCALE / 2));
    assert_eq!(hit.normal, Vec3::new(0, 0, SCALE));
    assert!(hit.front_face);
}

#[test]
fn test_box_scenario() {
    let b = AxisAlignedBox {
        min: Vec3::new(-SCALE, -SCALE, -SCALE),
        max: Vec3::new(SCALE, SCALE, SCALE),
        material: gray_lambertian(),
    };
    let ray = Ray::new(Vec3::new(0, 0, -fx(5)), Vec3::new(0, 0, SCALE));
    let hit = b.intersect(&ray, 6554, i64::MAX).unwrap();
    assert_eq!(hit.t, fx(4));
    assert_eq!(hit.normal, Vec3::new(0, 0, -SCALE));
    assert!(hit.front_face);
}

#[test]
fn test_box_miss_parallel() {
    let b = AxisAlignedBox {
        min: Vec3::new(-SCALE, -SCALE, -SCALE),
        max: Vec3::new(SCALE, SCALE, SCALE),
        material: gray_lambertian(),
    };
    // parallel to the box's z-slabs, passing outside the x-slabs
    let ray = Ray::new(Vec3::new(fx(3), 0, -fx(5)), Vec3::new(0, 0, SCALE));
    assert!(b.intersect(&ray, 6554, i64::MAX).is_none());
}

#[test]
fn test_trace_depth_exhausted() {
    let mut scene = Scene::empty();
    scene.background = Background::Solid { color: Color::new(SCALE, 0, 0) };
    scene.primitives.push(Primitive::Sphere(Sphere {
        radius: SCALE,
        center: Vec3::new(0, 0, -fx(3)),
        material: gray_lambertian(),
    }));
    let ray = Ray::new(Vec3::zero(), Vec3::new(0, 0, -SCALE));
    let mut rng = Prng::new(7);
    let c = ray_color(&ray, &scene, 1, 0, &mut rng);
    assert_eq!(c, Color::black());
}

#[test]
fn test_miss_returns_solid_background() {
    let mut scene = Scene::empty();
    scene.background = Background::Solid { color: Color::new(12345, 23456, 34567) };
    let ray = Ray::new(Vec3::zero(), Vec3::new(0, 0, -SCALE));
    for max_depth in [0u32, 1, 5, 50] {
        let mut rng = Prng::new(11);
        let c = ray_color(&ray, &scene, 0, max_depth, &mut rng);
        assert_eq!(c, Color::new(12345, 23456, 34567));
    }
}

#[test]
fn test_miss_returns_sky_gradient() {
    let mut scene = Scene::empty();
    scene.background = Background::Sky;
    // straight up: the zenith color exactly
    let ray = Ray::new(Vec3::zero(), Vec3::new(0, SCALE, 0));
    let mut rng = Prng::new(3);
    let c = ray_color(&ray, &scene, 0, 10, &mut rng);
    assert_eq!(c, Color::new(SCALE / 2, 45875, SCALE));
}

#[test]
fn test_lambertian_scatter_never_degenerate() {
    let m = gray_lambertian();
    let normal = Vec3::new(0, 0, SCALE);
    let ray = Ray::new(Vec3::zero(), Vec3::new(0, 0, -SCALE));
    for seed in 0u64..32 {
        let mut rng = Prng::new(seed);
        let hit = rayo::intersection::hitinfo::HitInfo::new(
            SCALE,
            &ray,
            normal,
            m,
            0,
            0,
        );
        let (_att, scattered) = m.scatter(&ray, hit, &mut rng).unwrap();
        assert!(!(scattered.dir.x == 0 && scattered.dir.y == 0 && scattered.dir.z == 0));
    }
}

#[test]
fn test_metal_scatter_backward_absorbed() {
    let m = Material::Metal { albedo: Texture::new_constant(SCALE, SCALE, SCALE), fuzz: 0 };
    let normal = Vec3::new(0, 0, SCALE);
    // a ray leaving the surface from behind reflects into it: absorbed
    let ray_in = Ray::new(Vec3::zero(), Vec3::new(0, 0, SCALE));
    let hit = rayo::intersection::hitinfo::HitInfo {
        normal,
        t: SCALE,
        point: Vec3::zero(),
        front_face: false,
        material: m,
        u: 0,
        v: 0,
    };
    let mut rng = Prng::new(5);
    assert!(m.scatter(&ray_in, hit, &mut rng).is_none());

    // a ray running against the normal reflects away from it: scattered
    let ray_ok = Ray::new(Vec3::zero(), Vec3::new(0, 0, -SCALE));
    let mut rng2 = Prng::new(5);
    let (_att, scattered) = m.scatter(&ray_ok, hit, &mut rng2).unwrap();
    assert_eq!(scattered.dir, Vec3::new(0, 0, SCALE));
}

#[test]
fn test_dielectric_unit_ior_is_no_op() {
    let m = Material::Dielectric { ior: SCALE, color: Texture::new_constant(SCALE, SCALE, SCALE) };
    let normal = Vec3::new(0, 0, SCALE);
    let ray = Ray::new(Vec3::zero(), Vec3::new(0, 0, -SCALE));
    let hit = rayo::intersection::hitinfo::HitInfo {
        normal,
        t: SCALE,
        point: Vec3::zero(),
        front_face: true,
        material: m,
        u: 0,
        v: 0,
    };
    for seed in 0u64..8 {
        let mut rng = Prng::new(seed);
        let (_att, scattered) = m.scatter(&ray, hit, &mut rng).unwrap();
        assert_eq!(scattered.dir, ray.dir);
    }
}

#[test]
fn test_emmit_light_and_dark() {
    let light = Material::DiffuseLight { texture: Texture::new_constant(fx(4), fx(4), fx(4)) };
    let p = Vec3::zero();
    assert_eq!(light.emmit(0, 0, p), Color::new(fx(4), fx(4), fx(4)));
    assert_eq!(gray_lambertian().emmit(0, 0, p), Color::black());
}

#[test]
fn test_prng_deterministic() {
    let mut a = Prng::new(123456789);
    let mut b = Prng::new(123456789);
    for _ in 0..16 {
        assert_eq!(a.next_u64(), b.next_u64());
    }
    let mut c = Prng::new(1);
    let x = c.next_u64();
    let y = c.next_u64();
    assert_ne!(x, y);
}

#[test]
fn test_render_pixel_deterministic() {
    let mut scene = Scene::empty();
    scene.background = Background::Sky;
    scene.primitives.push(Primitive::Sphere(Sphere {
        radius: SCALE / 2,
        center: Vec3::new(0, 0, -fx(2)),
        material: gray_lambertian(),
    }));
    let camera = Camera::new(
        Vec3::zero(),
        Vec3::new(0, 0, -SCALE),
        Vec3::new(0, SCALE, 0),
        SCALE,
        SCALE,
        0,
        SCALE,
    );
    let mut rng1 = Prng::new(99);
    let p1 = render_pixel(10, 12, 32, 32, &camera, &scene, 8, 10, &mut rng1);
    let mut rng2 = Prng::new(99);
    let p2 = render_pixel(10, 12, 32, 32, &camera, &scene, 8, 10, &mut rng2);
    assert_eq!(p1, p2);
    assert_eq!(rng1.state, rng2.state);
}

#[test]
fn test_render_empty_scene_sample_count_invariant() {
    let mut scene = Scene::empty();
    scene.background = Background::Solid { color: Color::new(SCALE / 4, SCALE / 4, SCALE / 4) };
    let camera = Camera::new(
        Vec3::zero(),
        Vec3::new(0, 0, -SCALE),
        Vec3::new(0, SCALE, 0),
        SCALE,
        SCALE,
        0,
        SCALE,
    );
    let mut p_last = None;
    for (seed, samples) in [(1u64, 1u32), (2, 3), (3, 7), (4, 25)] {
        let mut rng = Prng::new(seed);
        let p = render_pixel(0, 0, 4, 4, &camera, &scene, samples, 5, &mut rng);
        if let Some(prev) = p_last {
            assert_eq!(p, prev);
        }
        p_last = Some(p);
    }
    // sqrt(0.25) = 0.5, and 0.5 * 255 floors to 127
    assert_eq!(p_last.unwrap(), (127, 127, 127));
}

#[test]
fn test_to_pixel_values() {
    assert_eq!(Color::black().to_pixel(1), (0, 0, 0));
    assert_eq!(Color::white().to_pixel(1), (254, 254, 254));
    // averaging two samples of half gray: sqrt(0.25) = 0.5
    assert_eq!(Color::new(SCALE / 2, SCALE / 2, SCALE / 2).to_pixel(2), (127, 127, 127));
    // negative radiance is clamped dark
    assert_eq!(Color::new(-fx(3), 0, 0).to_pixel(1), (0, 0, 0));
}

#[test]
fn test_new_rgb_scaling() {
    let c = Color::new_rgb(255, 0, 128);
    assert_eq!(c.r, SCALE);
    assert_eq!(c.g, 0);
    assert_eq!(c.b, 128 * SCALE / 255);
}

#[test]
fn test_color_close_and_near_zero() {
    assert!(Color::black().near_zero());
    assert!(!Color::new(1, 0, 0).near_zero());
    assert!(Color::new(5, 6, 7).is_close(&Color::new(5, 6, 7)));
    assert!(!Color::new(5, 6, 7).is_close(&Color::new(5, 6, 8)));
}

#[test]
fn test_checkered_texture_cells() {
    let even = Color::new(SCALE, SCALE, SCALE);
    let odd = Color::new(0, 0, 0);
    let t = Texture::Checkered { even, odd, size: SCALE };
    // all three scaled coordinates fall in the first half-turn: even cell
    assert_eq!(t.value(Vec3::new(SCALE / 2, SCALE / 2, SCALE / 2)), even);
    // one coordinate crosses into the second half-turn: odd cell
    assert_eq!(t.value(Vec3::new(fx(4), SCALE / 2, SCALE / 2)), odd);
    // two crossings cancel: even again
    assert_eq!(t.value(Vec3::new(fx(4), fx(4), SCALE / 2)), even);
}

#[test]
fn test_vec_algebra_exact() {
    let v = Vec3::new(fx(3), fx(4), 0);
    assert_eq!(v.norm_sqared(), fx(25));
    assert_eq!(v.norm(), fx(5));
    let n = v.normalized();
    // 3/5 and 4/5, truncated to the fixed-point grid
    assert_eq!(n, Vec3::new(39321, 52428, 0));
    // the normalized vector's length is one within the grid's rounding
    assert!((n.norm() - SCALE).abs() <= 4);

    let a = Vec3::new(SCALE, 0, 0);
    let b = Vec3::new(0, SCALE, 0);
    assert_eq!(Vec3::cross(&a, &b), Vec3::new(0, 0, SCALE));
    assert_eq!(Vec3::dot(&a, &b), 0);
    assert_eq!(a.add(b), Vec3::new(SCALE, SCALE, 0));
    assert_eq!(a.sub(b), Vec3::new(SCALE, -SCALE, 0));
    assert_eq!(a.neg(), Vec3::new(-SCALE, 0, 0));
    assert_eq!(a.scale(fx(2)), Vec3::new(fx(2), 0, 0));
    assert_eq!(Vec3::new(fx(3), 0, 0).div(fx(2)), Vec3::new(SCALE * 3 / 2, 0, 0));
    assert!(Vec3::zero().near_zero());
    assert!(!a.near_zero());
    let mut w = Vec3::new(fx(3), fx(4), 0);
    w.normalize();
    assert_eq!(w, Vec3::new(39321, 52428, 0));
}

#[test]
fn test_fixed_arithmetic_exact() {
    assert_eq!(fx_mul(fx(3), SCALE / 2), SCALE * 3 / 2);
    assert_eq!(fx_div(fx(3), fx(2)), SCALE * 3 / 2);
    assert_eq!(fx_add(fx(1), fx(2)), fx(3));
    assert_eq!(fx_sub(fx(1), fx(2)), -fx(1));
    assert_eq!(fx_sqrt(fx(4)), fx(2));
    assert_eq!(fx_sqrt(SCALE / 4), SCALE / 2);
    // saturation instead of overflow
    assert_eq!(fx_mul(i64::MAX, i64::MAX), i64::MAX);
    assert_eq!(fx_add(i64::MAX, i64::MAX), i64::MAX);
    assert_eq!(fx_sub(i64::MIN, SCALE), i64::MIN);
}

#[test]
fn test_color_running_average() {
    // the first sample replaces the empty mean outright
    let first = Color::new(fx(2), fx(4), 0);
    assert_eq!(Color::black().running_average(first, 1), first);
    // the second sample moves the mean halfway toward it
    let second = Color::new(0, 0, fx(2));
    assert_eq!(
        first.running_average(second, 2),
        Color::new(fx(1), fx(2), fx(1)),
    );
    assert_eq!(Color::new(fx(9), 0, 0).div_int(3), Color::new(fx(3), 0, 0));
}

#[test]
fn test_ray_at() {
    let r = Ray::new(Vec3::new(fx(1), 0, 0), Vec3::new(0, 0, -SCALE));
    assert_eq!(r.at(fx(2)), Vec3::new(fx(1), 0, -fx(2)));
}

#[test]
fn test_camera_pinhole_center_ray() {
    let camera = Camera::new(
        Vec3::zero(),
        Vec3::new(0, 0, -SCALE),
        Vec3::new(0, SCALE, 0),
        SCALE,
        SCALE,
        0,
        SCALE,
    );
    assert_eq!(camera.u, Vec3::new(SCALE, 0, 0));
    assert_eq!(camera.v, Vec3::new(0, SCALE, 0));
    assert_eq!(camera.lower_left_corner, Vec3::new(-SCALE, -SCALE, -SCALE));
    let mut rng = Prng::new(0);
    let r = camera.generate_ray(SCALE / 2, SCALE / 2, &mut rng);
    assert_eq!(r.origin, Vec3::zero());
    assert_eq!(r.dir, Vec3::new(0, 0, -SCALE));
}

#[test]
fn test_scene_closest_hit_and_tie_break() {
    let red = Material::Lambertian { albedo: Texture::new_constant(SCALE, 0, 0) };
    let blue = Material::Lambertian { albedo: Texture::new_constant(0, 0, SCALE) };
    let far = Sphere { radius: SCALE / 2, center: Vec3::new(0, 0, -fx(5)), material: red };
    let near = Sphere { radius: SCALE / 2, center: Vec3::new(0, 0, -fx(2)), material: blue };
    let mut scene = Scene::empty();
    scene.primitives.push(Primitive::Sphere(far));
    scene.primitives.push(Primitive::Sphere(near));
    let ray = Ray::new(Vec3::zero(), Vec3::new(0, 0, -SCALE));
    let hit = scene.intersect(&ray, 66, i64::MAX).unwrap();
    assert_eq!(hit.material, blue);
    assert_eq!(hit.t, fx(2) - SCALE / 2);

    // two equally close spheres: the one listed first wins
    let mut tie = Scene::empty();
    tie.primitives.push(Primitive::Sphere(Sphere {
        radius: SCALE / 2,
        center: Vec3::new(0, 0, -fx(2)),
        material: red,
    }));
    tie.primitives.push(Primitive::Sphere(Sphere {
        radius: SCALE / 2,
        center: Vec3::new(0, 0, -fx(2)),
        material: blue,
    }));
    let tie_hit = tie.intersect(&ray, 66, i64::MAX).unwrap();
    assert_eq!(tie_hit.material, red);
}

#[test]
fn test_empty_scene_misses() {
    let scene = Scene::empty();
    let ray = Ray::new(Vec3::zero(), Vec3::new(0, 0, -SCALE));
    assert!(scene.intersect(&ray, 66, i64::MAX).is_none());
}

#[test]
fn test_vec_random_within_range() {
    let mut rng = Prng::new(2024);
    for _ in 0..16 {
        let v = Vec3::random(&mut rng, -fx(2), fx(2));
        assert!(-fx(2) <= v.x && v.x <= fx(2));
        assert!(-fx(2) <= v.y && v.y <= fx(2));
        assert!(-fx(2) <= v.z && v.z <= fx(2));
    }
}

#[test]
fn test_random_unit_components() {
    let mut rng = Prng::new(77);
    for _ in 0..16 {
        let v = Vec3::random_unit(&mut rng);
        assert!(0 <= v.x && v.x < SCALE);
        assert!(0 <= v.y && v.y < SCALE);
        assert!(0 <= v.z && v.z < SCALE);
    }
}

#[test]
fn test_random_in_unit_disk() {
    let mut rng = Prng::new(31);
    for _ in 0..16 {
        let v = Vec3::random_in_unit_disk(&mut rng);
        assert!(v.norm_sqared() < SCALE);
        assert_eq!(v.z, 0);
    }
}

#[test]
fn test_sphere_normal_unit_under_quantization() {
    // normals of off-axis hits stay unit length within the grid's rounding
    let s = Sphere {
        radius: fx(2),
        center: Vec3::new(0, 0, -fx(6)),
        material: gray_lambertian(),
    };
    let dirs = [
        Vec3::new(6554, 0, -SCALE),
        Vec3::new(-9830, 13107, -SCALE),
        Vec3::new(3277, -6554, -SCALE),
    ];
    for d in dirs {
        let ray = Ray::new(Vec3::zero(), d);
        let hit = s.intersect(&ray, 66, i64::MAX).unwrap();
        assert!((hit.normal.norm() - SCALE).abs() <= 64);
    }
}
