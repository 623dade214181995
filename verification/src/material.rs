//! How a surface answers light.

use vstd::prelude::*;
use crate::scalar::{Scalar, Vec4};
use crate::uniform::{named, settings, Uniform, UniformValue};

verus! {

/// The colours with which a surface answers ambient, diffuse and specular
/// light, and how sharp its highlights are.
#[derive(Clone, Copy, Debug, PartialEq, Eq, Structural)]
pub struct Material {
    pub ambient: Vec4,
    pub diffuse: Vec4,
    pub specular: Vec4,
    pub shininess: Scalar,
}

impl Material {
    /// The uniforms of the material, in the order in which they are set.
    pub open spec fn uniforms(&self) -> Seq<(Seq<char>, UniformValue)> {
        seq![
            ("u_Material.ambient"@, UniformValue::Vec4(self.ambient)),
            ("u_Material.diffuse"@, UniformValue::Vec4(self.diffuse)),
            ("u_Material.specular"@, UniformValue::Vec4(self.specular)),
            ("u_Material.shininess"@, UniformValue::Float(self.shininess)),
        ]
    }

    /// A material of one colour.
    pub fn new(color: Vec4, shininess: Scalar) -> (material: Material)
        ensures
            material == (Material { ambient: color, diffuse: color, specular: color, shininess }),
    {
        Material { ambient: color, diffuse: color, specular: color, shininess }
    }

    pub fn new_with_colors(ambient: Vec4, diffuse: Vec4, specular: Vec4, shininess: Scalar) -> (material: Material)
        ensures
            material == (Material { ambient, diffuse, specular, shininess }),
    {
        Material { ambient, diffuse, specular, shininess }
    }

    /// Adds the material's uniforms to those of a draw call.
    pub fn apply_to_shader(&self, uniforms: &mut Vec<Uniform>)
        ensures
            settings(final(uniforms)@) == settings(old(uniforms)@) + self.uniforms(),
    {
        uniforms.push(named("u_Material.ambient", UniformValue::Vec4(self.ambient)));
        uniforms.push(named("u_Material.diffuse", UniformValue::Vec4(self.diffuse)));
        uniforms.push(named("u_Material.specular", UniformValue::Vec4(self.specular)));
        uniforms.push(named("u_Material.shininess", UniformValue::Float(self.shininess)));
        assert(settings(uniforms@) =~= settings(old(uniforms)@) + self.uniforms());
    }
}

} // verus!
