//! The integrator and the per-pixel sampling loop.

use vstd::prelude::*;
use crate::camera::Camera;
use crate::color::Color;
use crate::fixed::{fx_add, fx_add_spec, fx_div, fx_div_spec, SCALE};
use crate::intersection::scene::{scene_hit_seq_spec, Scene};
use crate::intersection::Hittable;
use crate::prng::{draw_spec, Prng};
use crate::ray::Ray;

verus! {

/// The lower bound of every scene intersection: rays spawned on a surface
/// skip their immediate neighborhood, against shadow acne.
pub const T_MIN: i64 = 6554;

/// The color a ray gathers: black once the depth budget is exhausted;
/// otherwise the background on a miss, and on a hit the material's own
/// light plus its attenuated recursive scatter.
pub open spec fn ray_color_spec(ray: Ray, scene: Scene, depth: int, max_depth: int, s: u64) -> (
    Color,
    u64,
)
    decreases max_depth + 1 - depth,
{
    if depth > max_depth {
        (Color::black_spec(), s)
    } else {
        match scene_hit_seq_spec(scene.primitives@, ray, T_MIN, i64::MAX) {
            Option::None => (scene.background_spec(ray), s),
            Option::Some(h) => {
                let emitted = h.material.emmit_spec(h.u, h.v, h.point);
                let (sc, s1) = h.material.scatter_spec(ray, h, s);
                match sc {
                    Option::Some((attenuation, scattered)) => {
                        let (rec, s2) = ray_color_spec(scattered, scene, depth + 1, max_depth, s1);
                        (emitted.add_spec(attenuation.mul_spec(rec)), s2)
                    },
                    Option::None => (emitted, s1),
                }
            },
        }
    }
}

pub fn ray_color(ray: &Ray, scene: &Scene, depth: u32, max_depth: u32, rng: &mut Prng) -> (c:
    Color)
    requires
        max_depth < u32::MAX,
    ensures
        (c, final(rng).state) == ray_color_spec(
            *ray,
            *scene,
            depth as int,
            max_depth as int,
            old(rng).state,
        ),
        depth > max_depth ==> c == Color::black_spec(),
    decreases max_depth + 1 - depth,
{
    if depth > max_depth {
        return Color::black();
    }
    let hit = scene.intersect(ray, T_MIN, i64::MAX);
    match hit {
        Option::Some(h) => {
            let emitted: Color = h.material.emmit(h.u, h.v, h.point);
            match h.material.scatter(ray, h, rng) {
                Option::Some((attenuation, scattered_ray)) => {
                    let rec: Color = ray_color(&scattered_ray, scene, depth + 1, max_depth, rng);
                    emitted.add(attenuation.mul(rec))
                },
                Option::None => emitted,
            }
        },
        Option::None => scene.background_color(ray),
    }
}

/// The normalized image-plane coordinate of pixel index `i` jittered by
/// the fraction `f`: `(i + f) / (extent - 1)`.
pub open spec fn pixel_coord_spec(i: u32, extent: u32, f: i64) -> i64
    recommends
        extent >= 2,
{
    fx_div_spec(
        fx_add_spec(((i as int) * (SCALE as int)) as i64, f),
        ((extent - 1) * (SCALE as int)) as i64,
    )
}

fn pixel_coord(i: u32, extent: u32, f: i64) -> (r: i64)
    requires
        extent >= 2,
    ensures
        r == pixel_coord_spec(i, extent, f),
{
    let i_fx: i64 = (i as i64) * 65536;
    let e_fx: i64 = ((extent - 1) as i64) * 65536;
    assert(i_fx == ((i as int) * (SCALE as int)) as i64);
    assert(e_fx == ((extent - 1) * (SCALE as int)) as i64);
    fx_div(fx_add(i_fx, f), e_fx)
}

/// One Monte-Carlo sample of a pixel: a camera ray through the pixel
/// footprint jittered by two fresh fractions, traced through the scene.
pub open spec fn one_sample_spec(
    x: u32,
    y: u32,
    img_x: u32,
    img_y: u32,
    camera: Camera,
    scene: Scene,
    max_depth: u32,
    s: u64,
) -> (Color, u64)
    recommends
        img_x >= 2,
        img_y >= 2,
{
    let (s1, fu) = draw_spec(s);
    let (s2, fv) = draw_spec(s1);
    let u = pixel_coord_spec(x, img_x, fu);
    let v = pixel_coord_spec(y, img_y, fv);
    let (ray, s3) = camera.generate_ray_spec(u, v, s2);
    ray_color_spec(ray, scene, 0, max_depth as int, s3)
}

fn one_sample(
    x: u32,
    y: u32,
    img_x: u32,
    img_y: u32,
    camera: &Camera,
    scene: &Scene,
    max_depth: u32,
    rng: &mut Prng,
) -> (c: Color)
    requires
        img_x >= 2,
        img_y >= 2,
        max_depth < u32::MAX,
    ensures
        (c, final(rng).state) == one_sample_spec(
            x,
            y,
            img_x,
            img_y,
            *camera,
            *scene,
            max_depth,
            old(rng).state,
        ),
{
    let fu: i64 = rng.next_fraction();
    let fv: i64 = rng.next_fraction();
    let u: i64 = pixel_coord(x, img_x, fu);
    let v: i64 = pixel_coord(y, img_y, fv);
    let ray: Ray = camera.generate_ray(u, v, rng);
    ray_color(&ray, scene, 0, max_depth, rng)
}

/// The running accumulation of `k` further samples on top of `acc`.
pub open spec fn sample_acc_spec(
    k: nat,
    acc: Color,
    x: u32,
    y: u32,
    img_x: u32,
    img_y: u32,
    camera: Camera,
    scene: Scene,
    max_depth: u32,
    s: u64,
) -> (Color, u64)
    decreases k,
{
    if k == 0 {
        (acc, s)
    } else {
        let (c0, s1) = one_sample_spec(x, y, img_x, img_y, camera, scene, max_depth, s);
        sample_acc_spec(
            (k - 1) as nat,
            acc.add_spec(c0),
            x,
            y,
            img_x,
            img_y,
            camera,
            scene,
            max_depth,
            s1,
        )
    }
}

/// What the whole pixel evaluates to: the sum of `num_samples` independent
/// jittered samples, averaged and tone-mapped by `to_pixel`.
pub open spec fn render_pixel_spec(
    x: u32,
    y: u32,
    img_x: u32,
    img_y: u32,
    camera: Camera,
    scene: Scene,
    num_samples: u32,
    max_depth: u32,
    s: u64,
) -> ((u8, u8, u8), u64)
    recommends
        img_x >= 2,
        img_y >= 2,
        num_samples >= 1,
{
    let (acc, s1) = sample_acc_spec(
        num_samples as nat,
        Color::black_spec(),
        x,
        y,
        img_x,
        img_y,
        camera,
        scene,
        max_depth,
        s,
    );
    (acc.to_pixel_spec(num_samples), s1)
}

/// Renders one pixel: the pure function from pixel coordinates, camera,
/// scene, sample count, depth budget, and generator seed to an 8-bit RGB
/// triple. The contract pins the result to the inputs alone, so rendering
/// twice from one seed reproduces the pixel exactly; every pixel is
/// independent, so callers may fan these calls out over any number of
/// workers, one generator each.
pub fn render_pixel(
    x: u32,
    y: u32,
    img_x: u32,
    img_y: u32,
    camera: &Camera,
    scene: &Scene,
    num_samples: u32,
    max_depth: u32,
    rng: &mut Prng,
) -> (p: (u8, u8, u8))
    requires
        img_x >= 2,
        img_y >= 2,
        num_samples >= 1,
        max_depth < u32::MAX,
    ensures
        (p, final(rng).state) == render_pixel_spec(
            x,
            y,
            img_x,
            img_y,
            *camera,
            *scene,
            num_samples,
            max_depth,
            old(rng).state,
        ),
{
    let mut acc: Color = Color::black();
    let mut k: u32 = 0;
    while k < num_samples
        invariant
            k <= num_samples,
            img_x >= 2,
            img_y >= 2,
            max_depth < u32::MAX,
            sample_acc_spec(
                (num_samples - k) as nat,
                acc,
                x,
                y,
                img_x,
                img_y,
                *camera,
                *scene,
                max_depth,
                rng.state,
            ) == sample_acc_spec(
                num_samples as nat,
                Color::black_spec(),
                x,
                y,
                img_x,
                img_y,
                *camera,
                *scene,
                max_depth,
                old(rng).state,
            ),
        decreases num_samples - k,
    {
        let c: Color = one_sample(x, y, img_x, img_y, camera, scene, max_depth, rng);
        acc = acc.add(c);
        k = k + 1;
    }
    acc.to_pixel(num_samples)
}

} // verus!
