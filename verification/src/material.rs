//! Surface materials: Phong coefficients, reflection and refraction
//! scalars, and a texture.

use vstd::prelude::*;
use crate::color::{Color, scadd, scmul, scscale};
use crate::fx::{Fx, FX_SCALE, spec_powi};
use crate::light::Light;
use crate::texture::{Texture, TextureSpec, texture_result};
use crate::transform::Transform;
use crate::tuple::{Tuple4, sdot, spec_normalize, spec_reflect, stneg, stsub};

verus! {

/// A surface description: Phong coefficients, reflection and refraction
/// behaviour, and a texture for the base color.
#[derive(Copy, Clone, Debug, PartialEq, Eq, Structural)]
pub struct Material {
    pub texture: Texture,
    pub ambient: Fx,
    pub diffuse: Fx,
    pub specular: Fx,
    pub shininess: i32,
    pub reflective: Fx,
    pub transparency: Fx,
    pub refractive_index: Fx,
}

/// The Phong shading of a surface point, given the base color its texture
/// produced: the ambient term always contributes; in shadow nothing else
/// does; the diffuse term needs the light on the outer side of the
/// surface, and the specular term additionally needs the reflected light
/// turned toward the eye, raised to the shininess power.
#[verifier::opaque]
pub open spec fn spec_lighting(
    m: Material,
    light: Light,
    point: Tuple4,
    eyev: Tuple4,
    normalv: Tuple4,
    in_shadow: bool,
    base_color: Color,
) -> Color {
    let effective_color = scmul(base_color, light.intensity);
    let ambient = scscale(effective_color, m.ambient);
    if in_shadow {
        ambient
    } else {
        let lightv = spec_normalize(stsub(light.position, point));
        let light_dot_normal = sdot(lightv, normalv);
        if light_dot_normal.raw >= 0 {
            let with_diffuse = scadd(
                ambient,
                scscale(scscale(effective_color, m.diffuse), light_dot_normal),
            );
            let reflectv = spec_reflect(stneg(lightv), normalv);
            let reflect_dot_eye = sdot(reflectv, eyev);
            if reflect_dot_eye.raw >= 0 {
                let factor = Fx {
                    raw: spec_powi(reflect_dot_eye.raw as int, m.shininess as int) as i64,
                };
                scadd(with_diffuse, scscale(scscale(light.intensity, m.specular), factor))
            } else {
                with_diffuse
            }
        } else {
            ambient
        }
    }
}

/// The default material as a value: white, mostly diffuse, shiny, opaque,
/// with the refractive index of vacuum.
pub open spec fn spec_default_material() -> Material {
    Material {
        texture: Texture {
            kind: TextureSpec::Constant(
                Color { r: Fx { raw: FX_SCALE }, g: Fx { raw: FX_SCALE }, b: Fx { raw: FX_SCALE } },
            ),
            transform: Transform {
                local_to_world: crate::matrix::spec_identity4(),
                world_to_local: crate::matrix::spec_identity4(),
            },
        },
        ambient: Fx { raw: 1_000_000 },
        diffuse: Fx { raw: 9_000_000 },
        specular: Fx { raw: 9_000_000 },
        shininess: 200,
        reflective: Fx { raw: 0 },
        transparency: Fx { raw: 0 },
        refractive_index: Fx { raw: FX_SCALE },
    }
}

impl Material {
    /// The default material: white, mostly diffuse, shiny, opaque, with
    /// the refractive index of vacuum.
    pub fn new() -> (r: Material)
        ensures
            r == spec_default_material(),
            r.texture.kind == TextureSpec::Constant(
                Color { r: Fx { raw: FX_SCALE }, g: Fx { raw: FX_SCALE }, b: Fx { raw: FX_SCALE } },
            ),
            r.ambient.raw == 1_000_000,
            r.diffuse.raw == 9_000_000,
            r.specular.raw == 9_000_000,
            r.shininess == 200,
            r.reflective.raw == 0,
            r.transparency.raw == 0,
            r.refractive_index.raw == FX_SCALE,
    {
        Material {
            texture: Texture::constant(Color::white()),
            ambient: Fx { raw: 1_000_000 },
            diffuse: Fx { raw: 9_000_000 },
            specular: Fx { raw: 9_000_000 },
            shininess: 200,
            reflective: Fx::zero(),
            transparency: Fx::zero(),
            refractive_index: Fx::one(),
        }
    }

    /// A copy with a constant base color.
    pub fn color(self, color: Color) -> (r: Material)
        ensures
            r.texture.kind == TextureSpec::Constant(color),
            r == (Material { texture: r.texture, ..self }),
    {
        Material { texture: Texture::constant(color), ..self }
    }

    /// A copy with the given texture.
    pub fn texture(self, texture: Texture) -> (r: Material)
        ensures
            r == (Material { texture, ..self }),
    {
        Material { texture, ..self }
    }

    /// A copy with the given ambient coefficient.
    pub fn ambient(self, ambient: Fx) -> (r: Material)
        ensures
            r == (Material { ambient, ..self }),
    {
        Material { ambient, ..self }
    }

    /// A copy with the given diffuse coefficient.
    pub fn diffuse(self, diffuse: Fx) -> (r: Material)
        ensures
            r == (Material { diffuse, ..self }),
    {
        Material { diffuse, ..self }
    }

    /// A copy with the given specular coefficient.
    pub fn specular(self, specular: Fx) -> (r: Material)
        ensures
            r == (Material { specular, ..self }),
    {
        Material { specular, ..self }
    }

    /// A copy with the given shininess exponent.
    pub fn shininess(self, shininess: i32) -> (r: Material)
        ensures
            r == (Material { shininess, ..self }),
    {
        Material { shininess, ..self }
    }

    /// A copy with the given reflective coefficient.
    pub fn reflective(self, reflective: Fx) -> (r: Material)
        ensures
            r == (Material { reflective, ..self }),
    {
        Material { reflective, ..self }
    }

    /// A copy with the given transparency coefficient.
    pub fn transparency(self, transparency: Fx) -> (r: Material)
        ensures
            r == (Material { transparency, ..self }),
    {
        Material { transparency, ..self }
    }

    /// A copy with the given refractive index.
    pub fn refractive_index(self, refractive_index: Fx) -> (r: Material)
        ensures
            r == (Material { refractive_index, ..self }),
    {
        Material { refractive_index, ..self }
    }

    /// Computes the color of the surface at the given point: the Phong
    /// shading of whatever base color the texture produces there.
    pub fn lighting(
        self,
        rng: &mut rand::rngs::SmallRng,
        transform: Transform,
        light: Light,
        point: Tuple4,
        eyev: Tuple4,
        normalv: Tuple4,
        in_shadow: bool,
    ) -> (result: Color)
        ensures
            exists|base: Color|
                texture_result(self.texture, transform, point, base) && result == spec_lighting(
                    self,
                    light,
                    point,
                    eyev,
                    normalv,
                    in_shadow,
                    base,
                ),
    {
        proof {
            reveal(spec_lighting);
        }
        let base_color = self.texture.evaluate(rng, transform, point);

        // Combine the surface color with the light's color/intensity.
        let effective_color = base_color.mul(light.intensity);

        // Compute the ambient contribution.
        let mut result = effective_color.scale(self.ambient);

        // Skip the diffuse and specular components if the point is in
        // shadow.
        if in_shadow {
            proof {
                assert(texture_result(self.texture, transform, point, base_color) && result
                    == spec_lighting(self, light, point, eyev, normalv, in_shadow, base_color));
            }
            return result;
        }
        // Find the direction to the light source.
        let lightv = light.position.sub(point).normalize();

        // light_dot_normal represents the cosine of the angle between the
        // light vector and the normal vector. A negative number means the
        // light is on the other side of the surface.
        let light_dot_normal = lightv.dot(normalv);
        if light_dot_normal.raw >= 0 {
            // Compute and add the diffuse contribution.
            result = result.add(effective_color.scale(self.diffuse).scale(light_dot_normal));

            // reflect_dot_eye represents the cosine of the angle between
            // the reflection vector and the eye vector. A negative number
            // means the light reflects away from the eye.
            let reflectv = lightv.neg().reflect(normalv);
            let reflect_dot_eye = reflectv.dot(eyev);
            if reflect_dot_eye.raw >= 0 {
                // Compute and add the specular contribution.
                let factor = reflect_dot_eye.powi(self.shininess);
                result = result.add(light.intensity.scale(self.specular).scale(factor));
            }
        }
        proof {
            assert(texture_result(self.texture, transform, point, base_color) && result
                == spec_lighting(self, light, point, eyev, normalv, in_shadow, base_color));
        }
        result
    }
}

} // verus!
