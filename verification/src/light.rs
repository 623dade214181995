//! A source of light.

use vstd::prelude::*;
use crate::scalar::{Vec3, Vec4};
use crate::uniform::{light_field, light_uniform, settings, Uniform, UniformValue};

verus! {

/// The colours of a light and, for the length of one frame, where it
/// stands. A light is made without a position: the entity that carries it
/// gives it its own, anew in every frame.
#[derive(Clone, Copy, Debug, PartialEq, Eq, Structural)]
pub struct Light {
    pub ambient: Vec4,
    pub diffuse: Vec4,
    pub specular: Vec4,
    pub position: Option<Vec3>,
}

impl Light {
    /// The light at `position`, with its colours as they are.
    pub open spec fn at(&self, position: Vec3) -> Light {
        Light {
            ambient: self.ambient,
            diffuse: self.diffuse,
            specular: self.specular,
            position: Some(position),
        }
    }

    /// The uniforms of the light as the one at `index` in the shader's
    /// list, in the order in which they are set.
    pub open spec fn uniforms(&self, index: nat) -> Seq<(Seq<char>, UniformValue)>
        recommends
            self.position is Some,
    {
        seq![
            (light_field(index, "position"@), UniformValue::Vec3(self.position->0)),
            (light_field(index, "ambient"@), UniformValue::Vec4(self.ambient)),
            (light_field(index, "diffuse"@), UniformValue::Vec4(self.diffuse)),
            (light_field(index, "specular"@), UniformValue::Vec4(self.specular)),
        ]
    }

    /// A light of one colour, not placed yet.
    pub fn new(color: Vec4) -> (light: Light)
        ensures
            light == (Light { ambient: color, diffuse: color, specular: color, position: None }),
    {
        Light { ambient: color, diffuse: color, specular: color, position: None }
    }

    pub fn new_with_colors(ambient: Vec4, diffuse: Vec4, specular: Vec4) -> (light: Light)
        ensures
            light == (Light { ambient, diffuse, specular, position: None }),
    {
        Light { ambient, diffuse, specular, position: None }
    }

    /// Places the light, and returns it as placed.
    pub fn with_position(&mut self, position: Vec3) -> (light: &Light)
        ensures
            *final(self) == old(self).at(position),
            *light == old(self).at(position),
    {
        self.position = Some(position);
        self
    }

    /// Adds the light's uniforms, as those of the light at `index`, to
    /// those of a draw call.
    pub fn apply_to_shader(&self, uniforms: &mut Vec<Uniform>, index: usize)
        requires
            self.position is Some,
        ensures
            settings(final(uniforms)@) == settings(old(uniforms)@) + self.uniforms(index as nat),
    {
        let position = self.position.unwrap();
        uniforms.push(light_uniform(index, "position", UniformValue::Vec3(position)));
        uniforms.push(light_uniform(index, "ambient", UniformValue::Vec4(self.ambient)));
        uniforms.push(light_uniform(index, "diffuse", UniformValue::Vec4(self.diffuse)));
        uniforms.push(light_uniform(index, "specular", UniformValue::Vec4(self.specular)));
        assert(settings(uniforms@) =~= settings(old(uniforms)@) + self.uniforms(index as nat));
    }
}

} // verus!
