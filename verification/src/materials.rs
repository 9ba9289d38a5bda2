//! Surface materials and the Phong reflectance model.
//!
//! Lighting is ambient plus diffuse plus specular: the ambient term
//! always contributes; the diffuse term scales with the angle between
//! the light and the surface normal; the specular term scales with the
//! angle between the reflected light and the eye, raised to the
//! material's shininess.

use vstd::prelude::*;

verus! {

use crate::SCALE;
use crate::color::{Color, color_bounded};
use crate::fx::{POW_SLACK, div_trunc, fx_powi, fx_div_int, mul_fx, powi_fx, div_fx, sqrt_floor};
use crate::lighting::PointLight;
use crate::matrix::MUL_LIMIT;
use crate::space::{
    Point,
    Tuple,
    Vector,
    dot_fx,
    lemma_dot_fx_bound,
    mag_sq,
    reflect_fx,
    spec_scale,
    spec_sub,
    tuple_bounded,
};

/// Channel cap on colors fed to lighting: one hundred units.
pub const COLOR_LIMIT: i64 = 10_000_000_000;

/// Cap on the ambient, diffuse, and specular coefficients: ten units.
pub const COEF_LIMIT: i64 = 1_000_000_000;

/// Cap on the shininess exponent: six hundred units.
pub const SHINE_LIMIT: i64 = 60_000_000_000;

/// A Phong material: a surface color and four scalar coefficients.
#[derive(Clone, Copy, Debug, PartialEq, Eq, Structural)]
pub struct Material {
    pub color: Color,
    pub ambient: i64,
    pub diffuse: i64,
    pub specular: i64,
    pub shininess: i64,
}

/// The default ambient coefficient: a tenth of a unit.
pub const DEFAULT_AMBIENT: i64 = 10_000_000;

/// The default diffuse coefficient: nine tenths of a unit.
pub const DEFAULT_DIFFUSE: i64 = 90_000_000;

/// The default specular coefficient: nine tenths of a unit.
pub const DEFAULT_SPECULAR: i64 = 90_000_000;

/// The default shininess exponent: two hundred units.
pub const DEFAULT_SHININESS: i64 = 20_000_000_000;

/// A color scaled channelwise by a scalar, as a value.
pub open spec fn color_scale(c: Color, s: int) -> Color {
    Color {
        r: mul_fx(c.r as int, s) as i64,
        g: mul_fx(c.g as int, s) as i64,
        b: mul_fx(c.b as int, s) as i64,
    }
}

/// The channelwise product of two colors, as a value.
pub open spec fn color_mul(a: Color, b: Color) -> Color {
    Color {
        r: mul_fx(a.r as int, b.r as int) as i64,
        g: mul_fx(a.g as int, b.g as int) as i64,
        b: mul_fx(a.b as int, b.b as int) as i64,
    }
}

/// The channelwise sum of two colors, as a value.
pub open spec fn color_add(a: Color, b: Color) -> Color {
    Color { r: (a.r + b.r) as i64, g: (a.g + b.g) as i64, b: (a.b + b.b) as i64 }
}

/// The unit direction from the surface point toward the light.
pub open spec fn light_dir(l: PointLight, pos: Point) -> Tuple {
    let d = spec_sub(l.position.0, pos.0);
    let m = sqrt_floor(mag_sq(d));
    Tuple {
        x: div_fx(d.x as int, m) as i64,
        y: div_fx(d.y as int, m) as i64,
        z: div_fx(d.z as int, m) as i64,
        w: 0,
    }
}

/// The light direction turned around, by the scalar minus one.
pub open spec fn neg_light_dir(l: PointLight, pos: Point) -> Tuple {
    spec_scale(light_dir(l, pos), -(SCALE as int))
}

/// The reflected light direction, about the surface normal.
pub open spec fn spec_reflectv(l: PointLight, pos: Point, normalv: Vector) -> Tuple {
    reflect_fx(neg_light_dir(l, pos), normalv.0)
}

/// The reflected light direction dotted with the eye direction.
pub open spec fn spec_rde(l: PointLight, pos: Point, eyev: Vector, normalv: Vector) -> int {
    dot_fx(spec_reflectv(l, pos, normalv), eyev.0)
}

/// The shininess, truncated to a whole exponent.
pub open spec fn shine_exp(m: Material) -> nat {
    div_trunc(m.shininess as int, SCALE as int) as nat
}

/// What the Phong evaluation returns, step for step: the effective
/// color scaled for ambient; the diffuse and specular terms black when
/// the light or its reflection faces away, and scaled by their angles
/// otherwise.
pub open spec fn spec_lighting(
    m: Material,
    l: PointLight,
    pos: Point,
    eyev: Vector,
    normalv: Vector,
) -> Color {
    let eff = color_mul(m.color, l.intensity);
    let amb = color_scale(eff, m.ambient as int);
    let ldn = dot_fx(light_dir(l, pos), normalv.0);
    let black = Color { r: 0, g: 0, b: 0 };
    let diff = if ldn < 0 {
        black
    } else {
        color_scale(color_scale(eff, m.diffuse as int), ldn)
    };
    let spec = if ldn < 0 {
        black
    } else {
        let rde = spec_rde(l, pos, eyev, normalv);
        if rde <= 0 {
            black
        } else {
            color_scale(color_scale(l.intensity, m.specular as int), powi_fx(rde, shine_exp(m)))
        }
    };
    color_add(color_add(amb, diff), spec)
}

/// What the machine asks of a lighting query: a light away from the
/// surface point, colors and coefficients within their caps, unit-scale
/// eye and normal directions, and a reflection-eye angle no more than a
/// sliver above one unit.
pub open spec fn lighting_ok(
    m: Material,
    l: PointLight,
    pos: Point,
    eyev: Vector,
    normalv: Vector,
) -> bool {
    &&& tuple_bounded(l.position.0, MUL_LIMIT as int)
    &&& tuple_bounded(pos.0, MUL_LIMIT as int)
    &&& mag_sq(spec_sub(l.position.0, pos.0)) != 0
    &&& color_bounded(m.color, COLOR_LIMIT as int)
    &&& color_bounded(l.intensity, COLOR_LIMIT as int)
    &&& 0 <= m.ambient <= COEF_LIMIT
    &&& 0 <= m.diffuse <= COEF_LIMIT
    &&& 0 <= m.specular <= COEF_LIMIT
    &&& 0 <= m.shininess <= SHINE_LIMIT
    &&& tuple_bounded(eyev.0, 2 * (SCALE as int))
    &&& tuple_bounded(normalv.0, 2 * (SCALE as int))
    &&& spec_rde(l, pos, eyev, normalv) <= SCALE + POW_SLACK
}

impl Material {
    /// The fixed Phong preset, as a value.
    pub open spec fn new_spec() -> Material {
        Material {
            color: Color { r: SCALE, g: SCALE, b: SCALE },
            ambient: DEFAULT_AMBIENT,
            diffuse: DEFAULT_DIFFUSE,
            specular: DEFAULT_SPECULAR,
            shininess: DEFAULT_SHININESS,
        }
    }

    /// The fixed Phong preset: white surface, ambient one tenth,
    /// diffuse and specular nine tenths, shininess two hundred.
    pub fn new() -> (m: Material)
        ensures
            m == Material::new_spec(),
    {
        Material {
            color: Color::new(SCALE, SCALE, SCALE),
            ambient: DEFAULT_AMBIENT,
            diffuse: DEFAULT_DIFFUSE,
            specular: DEFAULT_SPECULAR,
            shininess: DEFAULT_SHININESS,
        }
    }

    /// The Phong shade at a surface point: ambient plus diffuse plus
    /// specular, exactly as `spec_lighting` lays the three terms out.
    pub fn lighting(
        &self,
        light: &PointLight,
        position: &Point,
        eyev: &Vector,
        normalv: &Vector,
    ) -> (result: Color)
        requires
            lighting_ok(*self, *light, *position, *eyev, *normalv),
        ensures
            result == spec_lighting(*self, *light, *position, *eyev, *normalv),
    {
        let black = Color::new(0, 0, 0);
        proof {
            lemma_channel(self.color.r as int, light.intensity.r as int);
            lemma_channel(self.color.g as int, light.intensity.g as int);
            lemma_channel(self.color.b as int, light.intensity.b as int);
        }
        let effective_color = self.color.times_color(&light.intensity);
        proof {
            lemma_coef(effective_color.r as int, self.ambient as int);
            lemma_coef(effective_color.g as int, self.ambient as int);
            lemma_coef(effective_color.b as int, self.ambient as int);
        }
        let ambient = effective_color.times(self.ambient);
        let diff_p = light.position().minus_point(position);
        let lightv = diff_p.normalize().unwrap();
        proof {
            lemma_dot_fx_bound(lightv.0, normalv.0, 200_000_000);
        }
        let light_dot_normal = lightv.dot(normalv);
        let diffuse: Color;
        let specular: Color;
        if light_dot_normal < 0 {
            diffuse = black;
            specular = black;
        } else {
            proof {
                lemma_coef(effective_color.r as int, self.diffuse as int);
                lemma_coef(effective_color.g as int, self.diffuse as int);
                lemma_coef(effective_color.b as int, self.diffuse as int);
                lemma_diffuse(
                    mul_fx(effective_color.r as int, self.diffuse as int),
                    light_dot_normal as int,
                );
                lemma_diffuse(
                    mul_fx(effective_color.g as int, self.diffuse as int),
                    light_dot_normal as int,
                );
                lemma_diffuse(
                    mul_fx(effective_color.b as int, self.diffuse as int),
                    light_dot_normal as int,
                );
                crate::fx::lemma_mul_fx_bound(
                    lightv.0.x as int,
                    -(SCALE as int),
                    100_000_000,
                    100_000_000,
                );
                crate::fx::lemma_mul_fx_bound(
                    lightv.0.y as int,
                    -(SCALE as int),
                    100_000_000,
                    100_000_000,
                );
                crate::fx::lemma_mul_fx_bound(
                    lightv.0.z as int,
                    -(SCALE as int),
                    100_000_000,
                    100_000_000,
                );
                crate::fx::lemma_mul_fx_bound(0, -(SCALE as int), 100_000_000, 100_000_000);
            }
            diffuse = effective_color.times(self.diffuse).times(light_dot_normal);
            let neg_lightv = lightv.times(-SCALE);
            let reflectv = neg_lightv.reflect(normalv);
            proof {
                lemma_reflect_small(neg_lightv.0, normalv.0);
                lemma_dot_fx_bound(reflectv.0, eyev.0, 7_000_000_000);
            }
            let reflect_dot_eye = reflectv.dot(eyev);
            if reflect_dot_eye <= 0 {
                specular = black;
            } else {
                proof {
                    crate::fx::lemma_div_trunc_bound(self.shininess as int, SCALE as int, 600);
                    crate::fx::lemma_div_trunc_le(self.shininess as int, SCALE as int);
                }
                let exp_scalar = fx_div_int(self.shininess, SCALE);
                let factor = fx_powi(reflect_dot_eye, exp_scalar as u32);
                proof {
                    lemma_coef(light.intensity.r as int, self.specular as int);
                    lemma_coef(light.intensity.g as int, self.specular as int);
                    lemma_coef(light.intensity.b as int, self.specular as int);
                    lemma_specular(
                        mul_fx(light.intensity.r as int, self.specular as int),
                        factor as int,
                    );
                    lemma_specular(
                        mul_fx(light.intensity.g as int, self.specular as int),
                        factor as int,
                    );
                    lemma_specular(
                        mul_fx(light.intensity.b as int, self.specular as int),
                        factor as int,
                    );
                }
                specular = light.intensity().times(self.specular).times(factor);
            }
        }
        ambient.plus(&diffuse).plus(&specular)
    }
}

/// A channel product of two capped colors is admissible and capped.
proof fn lemma_channel(u: int, v: int)
    requires
        -(COLOR_LIMIT as int) <= u <= COLOR_LIMIT as int,
        -(COLOR_LIMIT as int) <= v <= COLOR_LIMIT as int,
    ensures
        crate::fx::mul_ok(u, v),
        -1_000_000_000_001 <= mul_fx(u, v) <= 1_000_000_000_001,
{
    crate::fx::lemma_mul_fx_bound(u, v, COLOR_LIMIT as int, COLOR_LIMIT as int);
}

/// An effective channel scaled by a capped coefficient stays small.
proof fn lemma_coef(u: int, v: int)
    requires
        -10_100_000_000_000 <= u <= 10_100_000_000_000,
        -(COEF_LIMIT as int) <= v <= COEF_LIMIT as int,
    ensures
        crate::fx::mul_ok(u, v),
        -101_000_000_000_001 <= mul_fx(u, v) <= 101_000_000_000_001,
{
    crate::fx::lemma_mul_fx_bound(u, v, 10_100_000_000_000, COEF_LIMIT as int);
}

/// A diffuse channel scaled by the light angle stays representable.
proof fn lemma_diffuse(u: int, ldn: int)
    requires
        -101_000_000_000_001 <= u <= 101_000_000_000_001,
        -1_700_000_000 <= ldn <= 1_700_000_000,
    ensures
        crate::fx::mul_ok(u, ldn),
        -1_800_000_000_000_000 <= mul_fx(u, ldn) <= 1_800_000_000_000_000,
{
    crate::fx::lemma_mul_fx_bound(u, ldn, 101_000_000_000_001, 1_700_000_000);
}

/// A specular channel scaled by the shine factor stays representable.
proof fn lemma_specular(u: int, factor: int)
    requires
        -101_000_000_000_001 <= u <= 101_000_000_000_001,
        0 <= factor <= 300_000_000,
    ensures
        crate::fx::mul_ok(u, factor),
        -400_000_000_000_000 <= mul_fx(u, factor) <= 400_000_000_000_000,
{
    crate::fx::lemma_mul_fx_bound(u, factor, 101_000_000_000_001, 300_000_000);
}

/// The reflected light direction has small components.
proof fn lemma_reflect_small(v: Tuple, n: Tuple)
    requires
        tuple_bounded(v, (SCALE as int) + 1),
        tuple_bounded(n, 2 * (SCALE as int)),
    ensures
        tuple_bounded(reflect_fx(v, n), 7_000_000_000),
{
    lemma_dot_fx_bound(v, n, 200_000_000);
    let k = 2 * dot_fx(v, n);
    crate::fx::lemma_mul_fx_bound(n.x as int, k, 200_000_000, 3_300_000_000);
    crate::fx::lemma_mul_fx_bound(n.y as int, k, 200_000_000, 3_300_000_000);
    crate::fx::lemma_mul_fx_bound(n.z as int, k, 200_000_000, 3_300_000_000);
    crate::fx::lemma_mul_fx_bound(n.w as int, k, 200_000_000, 3_300_000_000);
}

impl Default for Material {
    /// The default material is the fixed Phong preset.
    fn default() -> (m: Material)
        ensures
            m == Material::new_spec(),
    {
        Material::new()
    }
}

} // verus!
