//! Materials: how light scatters, or fails to, at a hit.

use vstd::prelude::*;
use crate::color::Color;
use crate::fixed::{
    fx_add, fx_add_spec, fx_div, fx_div_spec, fx_mul, fx_mul_spec, fx_neg, fx_neg_spec, fx_sqrt,
    fx_sqrt_spec, fx_sub, fx_sub_spec, SCALE,
};
use crate::intersection::hitinfo::HitInfo;
use crate::prng::{draw_spec, Prng};
use crate::ray::Ray;
use crate::texture::Texture;
use crate::vec::Vec3;

verus! {

/// A surface's response to incoming light. All per-hit randomness is drawn
/// fresh from the caller's generator.
#[derive(Clone, Copy, PartialEq, Eq, Structural, Debug)]
pub enum Material {
    Lambertian { albedo: Texture },
    Metal { albedo: Texture, fuzz: i64 },
    Dielectric { ior: i64, color: Texture },
    DiffuseLight { texture: Texture },
}

/// The mirror image of `vec` about `normal`: `v - 2 (v . n) n`.
pub open spec fn reflect_spec(vec: Vec3, normal: Vec3) -> Vec3 {
    let d = Vec3::dot_spec(vec, normal);
    vec.sub_spec(normal.scale_spec(fx_add_spec(d, d)))
}

fn reflect(vec: &Vec3, normal: &Vec3) -> (r: Vec3)
    ensures
        r == reflect_spec(*vec, *normal),
{
    let d: i64 = Vec3::dot(vec, normal);
    vec.sub(normal.scale(fx_add(d, d)))
}

/// Schlick's approximation of Fresnel reflectance:
/// `r0 + (1 - r0) (1 - cos)^5` with `r0 = ((1 - ior) / (1 + ior))^2`.
pub open spec fn reflectance_spec(cosine: i64, ref_idx: i64) -> i64
    recommends
        ref_idx >= 0,
{
    let q = fx_div_spec(fx_sub_spec(SCALE, ref_idx), fx_add_spec(SCALE, ref_idx));
    let r0 = fx_mul_spec(q, q);
    let m = fx_sub_spec(SCALE, cosine);
    let m2 = fx_mul_spec(m, m);
    let m4 = fx_mul_spec(m2, m2);
    let m5 = fx_mul_spec(m4, m);
    fx_add_spec(r0, fx_mul_spec(fx_sub_spec(SCALE, r0), m5))
}

fn reflectance(cosine: i64, ref_idx: i64) -> (r: i64)
    requires
        ref_idx >= 0,
    ensures
        r == reflectance_spec(cosine, ref_idx),
{
    let q: i64 = fx_div(fx_sub(SCALE, ref_idx), fx_add(SCALE, ref_idx));
    let r0: i64 = fx_mul(q, q);
    let m: i64 = fx_sub(SCALE, cosine);
    let m2: i64 = fx_mul(m, m);
    let m4: i64 = fx_mul(m2, m2);
    let m5: i64 = fx_mul(m4, m);
    fx_add(r0, fx_mul(fx_sub(SCALE, r0), m5))
}

/// Snell-law refraction of the unit direction `vec` at a surface with unit
/// outward normal `normal` and refraction ratio `etai_over_etat`. The
/// radicand of the parallel part is clamped at zero: for directions that
/// could not refract the caller reflects instead, so the clamp is not
/// reached on admissible inputs.
pub open spec fn refract_spec(vec: Vec3, normal: Vec3, etai_over_etat: i64) -> Vec3 {
    let d = Vec3::dot_spec(vec.neg_spec(), normal);
    let costheta = if d < SCALE {
        d
    } else {
        SCALE
    };
    let r_out_perp = vec.add_spec(normal.scale_spec(costheta)).scale_spec(etai_over_etat);
    let k = fx_sub_spec(SCALE, r_out_perp.norm_sq_spec());
    let k0 = if k < 0 {
        0
    } else {
        k
    };
    let r_out_parallel = normal.scale_spec(fx_neg_spec(fx_sqrt_spec(k0)));
    r_out_perp.add_spec(r_out_parallel)
}

fn refract(vec: &Vec3, normal: &Vec3, etai_over_etat: i64) -> (r: Vec3)
    ensures
        r == refract_spec(*vec, *normal, etai_over_etat),
{
    let d: i64 = Vec3::dot(&vec.neg(), normal);
    let costheta: i64 = if d < SCALE {
        d
    } else {
        SCALE
    };
    let r_out_perp: Vec3 = vec.add(normal.scale(costheta)).scale(etai_over_etat);
    let k: i64 = fx_sub(SCALE, r_out_perp.norm_sqared());
    let k0: i64 = if k < 0 {
        0
    } else {
        k
    };
    let r_out_parallel: Vec3 = normal.scale(fx_neg(fx_sqrt(k0)));
    r_out_perp.add(r_out_parallel)
}

impl Material {
    /// What `scatter` returns and the generator state it leaves behind.
    ///
    /// - Lambertian: always scatters off the hit point toward the normal
    ///   plus a random offset, falling back to the normal itself when the
    ///   sum degenerates; attenuation is the albedo at the hit point.
    /// - Metal: reflects about the normal, perturbed by `fuzz` times a
    ///   random offset; absorbs instead when the perturbed direction does
    ///   not leave the surface, or when the reflection degenerates to a
    ///   length too short to normalize.
    /// - Dielectric: refracts or reflects by Snell's law, total internal
    ///   reflection, and a Schlick-reflectance coin flip; absorbs only a
    ///   degenerate incoming direction too short to normalize, or a
    ///   nonphysical index of refraction.
    /// - DiffuseLight: never scatters.
    pub open spec fn scatter_spec(self, ray_in: Ray, hit: HitInfo, s: u64) -> (
        Option<(Color, Ray)>,
        u64,
    ) {
        match self {
            Material::Lambertian { albedo } => {
                let (ru, s1) = Vec3::random_unit_spec(s);
                let d0 = hit.normal.add_spec(ru);
                let dir = if d0.near_zero_spec() {
                    hit.normal
                } else {
                    d0
                };
                (Some((albedo.value_spec(hit.point), Ray { origin: hit.point, dir: dir })), s1)
            },
            Material::Metal { albedo, fuzz } => {
                let refl0 = reflect_spec(ray_in.dir, hit.normal);
                if refl0.norm_sq_spec() < 1 {
                    (None, s)
                } else {
                    let (ru, s1) = Vec3::random_unit_spec(s);
                    let refl = refl0.normalized_spec().add_spec(ru.scale_spec(fuzz));
                    if Vec3::dot_spec(refl, hit.normal) > 0 {
                        (
                            Some(
                                (
                                    albedo.value_spec(hit.point),
                                    Ray { origin: hit.point, dir: refl },
                                ),
                            ),
                            s1,
                        )
                    } else {
                        (None, s1)
                    }
                }
            },
            Material::Dielectric { ior, color } => {
                if ior <= 0 || ray_in.dir.norm_sq_spec() < 1 {
                    (None, s)
                } else {
                    let ratio = if hit.front_face {
                        fx_div_spec(SCALE, ior)
                    } else {
                        ior
                    };
                    let unit_dir = ray_in.dir.normalized_spec();
                    let d = Vec3::dot_spec(unit_dir.neg_spec(), hit.normal);
                    let costheta = if d < SCALE {
                        d
                    } else {
                        SCALE
                    };
                    let sintheta = fx_sqrt_spec(
                        sq_radicand_spec(costheta),
                    );
                    let cannot_refract = fx_mul_spec(ratio, sintheta) > SCALE;
                    let (s1, f) = draw_spec(s);
                    let reflectance_high = reflectance_spec(costheta, ratio) > f;
                    let dir = if cannot_refract || reflectance_high {
                        reflect_spec(unit_dir, hit.normal)
                    } else {
                        refract_spec(unit_dir, hit.normal, ratio)
                    };
                    (
                        Some((color.value_spec(hit.point), Ray { origin: hit.point, dir: dir })),
                        s1,
                    )
                }
            },
            Material::DiffuseLight { texture } => (None, s),
        }
    }

    pub fn scatter(self, ray_in: &Ray, hit: HitInfo, rng: &mut Prng) -> (r: Option<(Color, Ray)>)
        ensures
            (r, final(rng).state) == self.scatter_spec(*ray_in, hit, old(rng).state),
    {
        match self {
            Material::Lambertian { albedo } => {
                let ru: Vec3 = Vec3::random_unit(rng);
                let d0: Vec3 = hit.normal.add(ru);
                let dir: Vec3 = if d0.near_zero() {
                    hit.normal
                } else {
                    d0
                };
                let scattered_ray = Ray { origin: hit.point, dir: dir };
                let attenuation: Color = albedo.value(hit.point);
                Some((attenuation, scattered_ray))
            },
            Material::Metal { albedo, fuzz } => {
                let refl0: Vec3 = reflect(&ray_in.dir, &hit.normal);
                let q: i64 = refl0.norm_sqared();
                if q < 1 {
                    None
                } else {
                    let ru: Vec3 = Vec3::random_unit(rng);
                    let refl: Vec3 = refl0.normalized().add(ru.scale(fuzz));
                    let should_scatter: bool = Vec3::dot(&refl, &hit.normal) > 0;
                    if should_scatter {
                        let scattered_ray = Ray { origin: hit.point, dir: refl };
                        let attenuation: Color = albedo.value(hit.point);
                        Some((attenuation, scattered_ray))
                    } else {
                        None
                    }
                }
            },
            Material::Dielectric { ior, color } => {
                let q: i64 = ray_in.dir.norm_sqared();
                if ior <= 0 || q < 1 {
                    None
                } else {
                    let ratio: i64 = if hit.front_face {
                        fx_div(SCALE, ior)
                    } else {
                        ior
                    };
                    proof {
                        if hit.front_face {
                            assert(SCALE * (SCALE as int) == 4294967296) by (nonlinear_arith);
                            vstd::arithmetic::div_mod::lemma_div_pos_is_pos(
                                4294967296,
                                ior as int,
                            );
                            vstd::arithmetic::div_mod::lemma_div_nonincreasing(
                                4294967296,
                                ior as int,
                            );
                        }
                        assert(ratio >= 0);
                    }
                    let unit_dir: Vec3 = ray_in.dir.normalized();
                    let d: i64 = Vec3::dot(&unit_dir.neg(), &hit.normal);
                    let costheta: i64 = if d < SCALE {
                        d
                    } else {
                        SCALE
                    };
                    let rad: i64 = sq_radicand(costheta);
                    let sintheta: i64 = fx_sqrt(rad);
                    let cannot_refract: bool = fx_mul(ratio, sintheta) > SCALE;
                    let f: i64 = rng.next_fraction();
                    let reflectance_high: bool = reflectance(costheta, ratio) > f;
                    let dir: Vec3 = if cannot_refract || reflectance_high {
                        reflect(&unit_dir, &hit.normal)
                    } else {
                        refract(&unit_dir, &hit.normal, ratio)
                    };
                    let scattered = Ray { origin: hit.point, dir: dir };
                    let attenuation: Color = color.value(hit.point);
                    Some((attenuation, scattered))
                }
            },
            Material::DiffuseLight { texture: _ } => None,
        }
    }

    /// The light a material gives off at a hit point: the texture value for
    /// a diffuse light, black for everything else.
    pub open spec fn emmit_spec(self, u: i64, v: i64, p: Vec3) -> Color {
        match self {
            Material::DiffuseLight { texture } => texture.value_spec(p),
            _ => Color::black_spec(),
        }
    }

    pub fn emmit(self, _u: i64, _v: i64, p: Vec3) -> (c: Color)
        ensures
            c == self.emmit_spec(_u, _v, p),
    {
        match self {
            Material::DiffuseLight { texture } => texture.value(p),
            _ => Color::black(),
        }
    }
}

/// The radicand `1 - cos^2`, clamped at zero against rounding past one.
pub open spec fn sq_radicand_spec(costheta: i64) -> i64 {
    let k = fx_sub_spec(SCALE, fx_mul_spec(costheta, costheta));
    if k < 0 {
        0
    } else {
        k
    }
}

fn sq_radicand(costheta: i64) -> (r: i64)
    ensures
        r == sq_radicand_spec(costheta),
        r >= 0,
{
    let k: i64 = fx_sub(SCALE, fx_mul(costheta, costheta));
    if k < 0 {
        0
    } else {
        k
    }
}

} // verus!
