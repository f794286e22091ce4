//! Materials: Phong lighting coefficients plus one owned pattern.

use crate::color::spec_black;
use crate::color::spec_color_add;
use crate::color::spec_color_mul;
use crate::color::spec_color_scale;
use crate::color::spec_white;
use crate::color::Color;
use crate::fx::fpow;
use crate::fx::Fx;
use crate::fx::HALF_SCALE;
use crate::fx::SCALE;
use crate::light::PointLight;
use crate::matrix::spec_identity4;
use crate::matrix::spec_invertible;
use crate::pattern::pattern_wf;
use crate::pattern::spec_color_at_object;
use crate::pattern::Pattern;
use crate::pattern::Patterns;
use crate::shape::Shape;
use crate::tuple::spec_dot;
use crate::tuple::spec_neg;
use crate::tuple::spec_normalize;
use crate::tuple::spec_reflect;
use crate::tuple::spec_sub;
use crate::tuple::Tuple;
use vstd::prelude::*;

verus! {

/// A material: an owned pattern plus the Phong coefficients.
#[derive(Debug)]
pub struct Material {
    pub pattern: Pattern,
    pub ambient: Fx,
    pub diffuse: Fx,
    pub specular: Fx,
    pub shininess: Fx,
}

/// The default material: solid white, ambient 0.1, diffuse 0.9,
/// specular 0.9, shininess 200.
pub open spec fn spec_default_material() -> Material {
    Material {
        pattern: Pattern { pattern: Patterns::Solid(spec_white()), transform: spec_identity4() },
        ambient: Fx { raw: 100_000_000 },
        diffuse: Fx { raw: 900_000_000 },
        specular: Fx { raw: 900_000_000 },
        shininess: Fx { raw: 200_000_000_000 },
    }
}

/// The specular exponent taken from the shininess scalar: its value
/// rounded to the nearest whole number, and zero when non-positive.
pub open spec fn exponent_of(sh: int) -> nat {
    if sh <= 0 {
        0
    } else {
        ((sh + HALF_SCALE as int) / SCALE as int) as nat
    }
}

/// The Phong lighting equation over fixed-point arithmetic, exactly as the
/// executable `lighting` computes it: ambient always contributes (and alone
/// when shadowed); diffuse scales with the light-normal cosine; specular
/// scales with the reflection-eye cosine raised to the shininess exponent.
pub open spec fn spec_lighting(
    m: Material,
    obj: Shape,
    light: PointLight,
    point: Tuple,
    eyev: Tuple,
    normalv: Tuple,
    in_shadow: bool,
) -> Color {
    let effective_color = spec_color_mul(
        spec_color_at_object(m.pattern, obj, point),
        light.intensity,
    );
    let lightv = spec_normalize(spec_sub(light.position, point));
    let ambient = spec_color_scale(effective_color, m.ambient.raw as int);
    if in_shadow {
        ambient
    } else {
        let ldn = spec_dot(lightv, normalv);
        let diffuse = if ldn < 0 {
            spec_black()
        } else {
            spec_color_scale(spec_color_scale(effective_color, m.diffuse.raw as int), ldn)
        };
        let specular = if ldn < 0 {
            spec_black()
        } else {
            let reflectv = spec_reflect(spec_neg(lightv), normalv);
            let rde = spec_dot(reflectv, eyev);
            if rde < 0 {
                spec_black()
            } else {
                let factor = fpow(rde, exponent_of(m.shininess.raw as int));
                spec_color_scale(
                    spec_color_scale(light.intensity, m.specular.raw as int),
                    factor,
                )
            }
        };
        spec_color_add(spec_color_add(ambient, diffuse), specular)
    }
}

impl Clone for Material {
    /// An exact copy.
    fn clone(&self) -> (r: Self)
        ensures
            r == *self,
    {
        Material {
            pattern: self.pattern.clone(),
            ambient: self.ambient,
            diffuse: self.diffuse,
            specular: self.specular,
            shininess: self.shininess,
        }
    }
}

impl Material {
    /// The default material.
    pub fn new() -> (r: Material)
        ensures
            r == spec_default_material(),
    {
        Material {
            pattern: Pattern::solid(Color::white()),
            ambient: Fx { raw: 100_000_000 },
            diffuse: Fx { raw: 900_000_000 },
            specular: Fx { raw: 900_000_000 },
            shininess: Fx { raw: 200_000_000_000 },
        }
    }

    /// Phong lighting at a point on `obj`, lit by `light`, seen along
    /// `eyev` with surface normal `normalv`; ambient only when shadowed.
    pub fn lighting(
        &self,
        obj: &Shape,
        light: PointLight,
        point: Tuple,
        eyev: Tuple,
        normalv: Tuple,
        in_shadow: bool,
    ) -> (r: Color)
        requires
            pattern_wf(self.pattern),
            spec_invertible(obj.transform),
        ensures
            r == spec_lighting(*self, *obj, light, point, eyev, normalv, in_shadow),
    {
        let effective_color = self.pattern.color_at_object(obj, &point).mul(light.intensity);
        let lightv = light.position.sub(point).normalize_or_zero();
        let ambient = effective_color.scale(self.ambient);
        if in_shadow {
            return ambient;
        }
        let light_dot_normal = lightv.dot(&normalv);
        let diffuse: Color;
        let specular: Color;
        if light_dot_normal.raw < 0 {
            diffuse = Color::black();
            specular = Color::black();
        } else {
            diffuse = effective_color.scale(self.diffuse).scale(light_dot_normal);
            let reflectv = lightv.neg().reflect(&normalv);
            let reflect_dot_eye = reflectv.dot(&eyev);
            if reflect_dot_eye.raw < 0 {
                specular = Color::black();
            } else {
                let e: u64 = if self.shininess.raw <= 0 {
                    0
                } else {
                    ((self.shininess.raw as u64) + (HALF_SCALE as u64)) / (SCALE as u64)
                };
                let factor = reflect_dot_eye.powi(e);
                specular = light.intensity.scale(self.specular).scale(factor);
            }
        }
        ambient.add(diffuse).add(specular)
    }
}

} // verus!
