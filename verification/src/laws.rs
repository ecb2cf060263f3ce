//! The library's stated laws, proved once and for all inputs.

use vstd::prelude::*;
use crate::color::Color;
use crate::fixed::{fx_mul_spec, lemma_fx_scale_identity, lemma_fx_sqrt_one, lemma_fx_sqrt_zero, lemma_fx_neg_scale_identity, lemma_tdiv_zero, tdiv, SCALE};
use crate::intersection::hitinfo::HitInfo;
use crate::intersection::scene::{scene_hit_seq_spec, Background, Scene};
use crate::material::{reflect_spec, Material};
use crate::prng::{draw_spec, fraction_spec, prng_out_spec, prng_step_spec};
use crate::ray::Ray;
use crate::render::{one_sample_spec, ray_color_spec, render_pixel_spec, sample_acc_spec, T_MIN};
use crate::texture::Texture;
use crate::vec::Vec3;
use crate::camera::Camera;

verus! {

/// A ray that strikes no primitive comes back with the scene's configured
/// background color, whatever the remaining recursion depth.
pub proof fn lemma_miss_returns_background(
    ray: Ray,
    scene: Scene,
    depth: int,
    max_depth: int,
    s: u64,
)
    requires
        scene_hit_seq_spec(scene.primitives@, ray, T_MIN, i64::MAX) is None,
        depth <= max_depth,
    ensures
        ray_color_spec(ray, scene, depth, max_depth, s).0 == scene.background_spec(ray),
        ray_color_spec(ray, scene, depth, max_depth, s).1 == s,
{
}

/// Once the depth budget is exhausted, tracing gathers no more light:
/// the result is black whatever the scene holds.
pub proof fn lemma_depth_exhausted_black(
    ray: Ray,
    scene: Scene,
    depth: int,
    max_depth: int,
    s: u64,
)
    requires
        depth > max_depth,
    ensures
        ray_color_spec(ray, scene, depth, max_depth, s) == (Color::black_spec(), s),
{
}

/// A Lambertian surface always scatters, and never along a degenerate
/// direction: when the random offset cancels the normal, the normal itself
/// is used. This holds for every hit whose normal is not itself
/// degenerate.
pub proof fn lemma_lambertian_scatter_not_degenerate(
    albedo: Texture,
    ray: Ray,
    hit: HitInfo,
    s: u64,
)
    requires
        !hit.normal.near_zero_spec(),
    ensures
        (Material::Lambertian { albedo }).scatter_spec(ray, hit, s).0 is Some,
        !(Material::Lambertian { albedo }).scatter_spec(ray, hit, s).0.unwrap().1.dir.near_zero_spec(),
{
}

/// A metal surface absorbs the ray exactly when the fuzzed reflection does
/// not leave the surface: its inner product with the normal is not
/// positive. A reflection too short to normalize is absorbed as well.
pub proof fn lemma_metal_scatter_absorbs_iff(
    albedo: Texture,
    fuzz: i64,
    ray: Ray,
    hit: HitInfo,
    s: u64,
)
    ensures
        ({
            let refl0 = reflect_spec(ray.dir, hit.normal);
            let (ru, s1) = Vec3::random_unit_spec(s);
            let refl = refl0.normalized_spec().add_spec(ru.scale_spec(fuzz));
            &&& refl0.norm_sq_spec() < 1 ==> (Material::Metal { albedo, fuzz }).scatter_spec(
                ray,
                hit,
                s,
            ).0 is None
            &&& refl0.norm_sq_spec() >= 1 ==> ((Material::Metal { albedo, fuzz }).scatter_spec(
                ray,
                hit,
                s,
            ).0 is None <==> Vec3::dot_spec(refl, hit.normal) <= 0)
        }),
{
}

/// A dielectric with the refractive index of the surrounding medium bends
/// nothing: at normal incidence on an exactly unit normal, the outgoing
/// direction equals the incoming one.
pub proof fn lemma_dielectric_unit_ior_no_bend(color: Texture, ray: Ray, hit: HitInfo, s: u64)
    requires
        hit.front_face,
        hit.normal.norm_sq_spec() == SCALE,
        ray.dir == hit.normal.neg_spec(),
    ensures
        (Material::Dielectric { ior: SCALE, color }).scatter_spec(ray, hit, s).0 is Some,
        (Material::Dielectric { ior: SCALE, color }).scatter_spec(ray, hit, s).0.unwrap().1.dir
            == ray.dir,
{
    let n = hit.normal;
    crate::vec::lemma_unit_components(n);
    crate::vec::lemma_neg_preserves_norm_sq(n);
    assert(ray.dir.norm_sq_spec() == SCALE);

    // the ratio of a matched medium is one
    lemma_fx_scale_identity(SCALE);
    assert(crate::fixed::fx_div_spec(SCALE, SCALE) == SCALE);

    // the incoming direction is already unit, so normalizing keeps it
    crate::vec::lemma_normalized_unit_identity(ray.dir);
    let unit_dir = ray.dir.normalized_spec();
    assert(unit_dir == ray.dir);

    // its negation is the normal again
    assert(unit_dir.neg_spec() == n);
    assert(Vec3::dot_spec(unit_dir.neg_spec(), n) == SCALE);

    // cos = 1, so the radicand and the sine vanish
    assert(fx_mul_spec(SCALE, SCALE) == SCALE);
    assert(crate::material::sq_radicand_spec(SCALE) == 0);
    lemma_fx_sqrt_zero();
    assert(fx_mul_spec(SCALE, 0) == 0);

    // the reflectance of a matched medium at normal incidence is zero
    lemma_tdiv_zero(131072);
    assert(crate::fixed::fx_div_spec(0, 131072) == 0);
    lemma_fx_scale_identity(0);
    assert(fx_mul_spec(0, 0) == 0);
    assert(crate::material::reflectance_spec(SCALE, SCALE) == 0);

    // the drawn fraction is never negative, so the coin picks refraction
    let v = prng_out_spec(prng_step_spec(s));
    assert(v >> 48 < 0x10000) by (bit_vector);
    assert(fraction_spec(v) >= 0);

    // refraction at ratio one reproduces the direction exactly
    assert(n.scale_spec(SCALE) == n) by {
        lemma_fx_scale_identity(n.x);
        lemma_fx_scale_identity(n.y);
        lemma_fx_scale_identity(n.z);
    }
    let perp0 = unit_dir.add_spec(n.scale_spec(SCALE));
    assert(perp0 == (Vec3 { x: 0i64, y: 0i64, z: 0i64 }));
    let perp = perp0.scale_spec(SCALE);
    assert(perp == (Vec3 { x: 0i64, y: 0i64, z: 0i64 })) by {
        lemma_fx_scale_identity(0);
    }
    assert(perp.norm_sq_spec() == 0) by {
        lemma_fx_scale_identity(0);
        lemma_tdiv_zero(SCALE as int);
    }
    lemma_fx_sqrt_one();
    assert(n.scale_spec((-65536) as i64) == n.neg_spec()) by {
        lemma_fx_neg_scale_identity(n.x);
        lemma_fx_neg_scale_identity(n.y);
        lemma_fx_neg_scale_identity(n.z);
    }
    let out = crate::material::refract_spec(unit_dir, n, SCALE);
    assert(out == perp.add_spec(n.neg_spec()));
    assert(out == ray.dir);
}

/// Raising the sample count cannot change what a deterministic pixel
/// shows: over an empty scene with a fixed background, every sample is
/// that background, and the average of any number of copies is the one
/// copy, whatever the sample count and whatever the seed.
pub proof fn lemma_sample_count_invariant_on_miss(
    x: u32,
    y: u32,
    img_x: u32,
    img_y: u32,
    camera: Camera,
    scene: Scene,
    c: Color,
    num_samples: u32,
    max_depth: u32,
    s: u64,
)
    requires
        scene.primitives@.len() == 0,
        scene.background == (Background::Solid { color: c }),
        0 <= c.r && 0 <= c.g && 0 <= c.b,
        c.r * num_samples <= i64::MAX,
        c.g * num_samples <= i64::MAX,
        c.b * num_samples <= i64::MAX,
        num_samples >= 1,
    ensures
        render_pixel_spec(x, y, img_x, img_y, camera, scene, num_samples, max_depth, s).0
            == c.to_pixel_spec(1),
{
    lemma_acc_miss(x, y, img_x, img_y, camera, scene, c, num_samples as nat, Color::black_spec(), max_depth, s);
    let (acc, s1) = sample_acc_spec(
        num_samples as nat,
        Color::black_spec(),
        x,
        y,
        img_x,
        img_y,
        camera,
        scene,
        max_depth,
        s,
    );
    assert(acc.r == num_samples * c.r);
    lemma_avg_of_copies(c.r, num_samples);
    lemma_avg_of_copies(c.g, num_samples);
    lemma_avg_of_copies(c.b, num_samples);
}

/// Accumulating `k` samples of an empty scene adds `k` copies of the
/// background color, without saturating while the total fits.
proof fn lemma_acc_miss(
    x: u32,
    y: u32,
    img_x: u32,
    img_y: u32,
    camera: Camera,
    scene: Scene,
    c: Color,
    k: nat,
    acc: Color,
    max_depth: u32,
    s: u64,
)
    requires
        scene.primitives@.len() == 0,
        scene.background == (Background::Solid { color: c }),
        0 <= c.r && 0 <= c.g && 0 <= c.b,
        0 <= acc.r && 0 <= acc.g && 0 <= acc.b,
        acc.r + k * c.r <= i64::MAX,
        acc.g + k * c.g <= i64::MAX,
        acc.b + k * c.b <= i64::MAX,
    ensures
        sample_acc_spec(k, acc, x, y, img_x, img_y, camera, scene, max_depth, s).0.r == acc.r + k
            * c.r,
        sample_acc_spec(k, acc, x, y, img_x, img_y, camera, scene, max_depth, s).0.g == acc.g + k
            * c.g,
        sample_acc_spec(k, acc, x, y, img_x, img_y, camera, scene, max_depth, s).0.b == acc.b + k
            * c.b,
    decreases k,
{
    if k == 0 {
        assert(k * c.r == 0 && k * c.g == 0 && k * c.b == 0) by (nonlinear_arith)
            requires
                k == 0,
        ;
    } else {
        let (c0, s1) = one_sample_spec(x, y, img_x, img_y, camera, scene, max_depth, s);
        assert(c0 == c && ({
            let (s1x, fu) = draw_spec(s);
            let (s2x, fv) = draw_spec(s1x);
            let u = crate::render::pixel_coord_spec(x, img_x, fu);
            let v = crate::render::pixel_coord_spec(y, img_y, fv);
            let (ray, s3) = camera.generate_ray_spec(u, v, s2x);
            s1 == ray_color_spec(ray, scene, 0, max_depth as int, s3).1
        })) by {
            let (s1x, fu) = draw_spec(s);
            let (s2x, fv) = draw_spec(s1x);
            let u = crate::render::pixel_coord_spec(x, img_x, fu);
            let v = crate::render::pixel_coord_spec(y, img_y, fv);
            let (ray, s3) = camera.generate_ray_spec(u, v, s2x);
            assert(scene_hit_seq_spec(scene.primitives@, ray, T_MIN, i64::MAX) is None);
            assert(ray_color_spec(ray, scene, 0, max_depth as int, s3).0 == c);
        }
        assert((k - 1) * c.r == k * c.r - c.r && (k - 1) * c.g == k * c.g - c.g && (k - 1) * c.b
            == k * c.b - c.b) by (nonlinear_arith);
        assert(c.r <= k * c.r && c.g <= k * c.g && c.b <= k * c.b) by (nonlinear_arith)
            requires
                k >= 1 && 0 <= c.r && 0 <= c.g && 0 <= c.b,
        ;
        let acc1 = acc.add_spec(c0);
        assert(acc1.r == acc.r + c.r && acc1.g == acc.g + c.g && acc1.b == acc.b + c.b);
        lemma_acc_miss(x, y, img_x, img_y, camera, scene, c, (k - 1) as nat, acc1, max_depth, s1);
    }
}

/// The average of `n` copies of a channel is the channel.
proof fn lemma_avg_of_copies(v: i64, n: u32)
    requires
        n >= 1,
        0 <= v,
        v * n <= i64::MAX,
    ensures
        tdiv(n * v, n as int) == v,
        tdiv(v as int, 1) == v,
{
    vstd::arithmetic::mul::lemma_mul_nonnegative(n as int, v as int);
    vstd::arithmetic::div_mod::lemma_div_multiples_vanish(v as int, n as int);
    vstd::arithmetic::div_mod::lemma_div_multiples_vanish(v as int, 1);
    assert(1 * (v as int) == v);
}

} // verus!
