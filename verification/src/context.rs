//! What a frame knows while it is drawn.

use vstd::prelude::*;
use crate::light::Light;
use crate::material::Material;
use crate::scalar::{Scalar, Vec3};
use crate::uniform::UniformValue;

verus! {

/// The state of one draw pass. The names of the shaders that the host's
/// asset table holds are given at the start of the frame. The lights are
/// gathered once, before anything is drawn, and hold for the whole frame;
/// shader, material, rotation and position are set anew by each renderable
/// on its way to its mesh.
#[derive(Clone, Debug, PartialEq, Eq)]
pub struct DrawableContext {
    /// The names of the shaders that the asset table holds.
    pub assets: Vec<String>,
    /// The shader to draw with, by its name in the asset table.
    pub shader: Option<String>,
    pub material: Option<Material>,
    pub lights: Option<Vec<Light>>,
    pub rotation: Vec3,
    pub position: Vec3,
}

/// The uniforms of the first `n` lights, each under its index.
pub open spec fn lights_uniforms(lights: Seq<Light>, n: nat) -> Seq<(Seq<char>, UniformValue)>
    decreases n,
{
    if n == 0 {
        Seq::empty()
    } else {
        lights_uniforms(lights, (n - 1) as nat) + lights[n - 1].uniforms((n - 1) as nat)
    }
}

impl DrawableContext {
    /// Whether the asset table holds a shader of the name given.
    pub open spec fn spec_has_shader(&self, name: &String) -> bool {
        exists|i: int| 0 <= i < self.assets@.len() && (#[trigger] self.assets@[i])@ == name@
    }

    /// Whether every light gathered has been placed.
    pub open spec fn lights_placed(&self) -> bool {
        self.lights is Some ==> forall|i: int|
            0 <= i < self.lights->0@.len() ==> (#[trigger] self.lights->0@[i]).position is Some
    }

    /// The uniforms that a draw with a shader sets, in order: the model,
    /// view and projection matrices and the eye's place, then those of the
    /// material if there is one, then those of the lights if they were
    /// gathered.
    pub open spec fn uniforms(&self) -> Seq<(Seq<char>, UniformValue)> {
        seq![
            ("u_Model"@, UniformValue::Model { position: self.position, rotation: self.rotation }),
            ("u_View"@, UniformValue::View),
            ("u_Projection"@, UniformValue::Projection),
            ("u_ViewPos"@, UniformValue::ViewPosition),
        ] + (match self.material {
            Some(material) => material.uniforms(),
            None => Seq::empty(),
        }) + (match self.lights {
            Some(lights) => lights_uniforms(lights@, lights@.len()),
            None => Seq::empty(),
        })
    }

    /// Whether the asset table holds a shader of the name given.
    #[verifier::when_used_as_spec(spec_has_shader)]
    pub fn has_shader(&self, name: &String) -> (held: bool)
        ensures
            held == self.spec_has_shader(name),
    {
        let mut i: usize = 0;
        while i < self.assets.len()
            invariant
                i <= self.assets@.len(),
                forall|j: int| 0 <= j < i ==> (#[trigger] self.assets@[j])@ != name@,
            decreases self.assets@.len() - i,
        {
            if self.assets[i] == *name {
                return true;
            }
            i += 1;
        }
        false
    }

    /// The context at the start of a frame: an asset table without
    /// shaders, nothing chosen, no lights gathered, at the origin and
    /// unturned.
    pub fn new() -> (ctx: DrawableContext)
        ensures
            ctx.assets@.len() == 0,
            ctx.shader is None,
            ctx.material is None,
            ctx.lights is None,
            ctx.rotation == (Vec3 { x: Scalar { bits: 0 }, y: Scalar { bits: 0 }, z: Scalar { bits: 0 } }),
            ctx.position == (Vec3 { x: Scalar { bits: 0 }, y: Scalar { bits: 0 }, z: Scalar { bits: 0 } }),
    {
        DrawableContext {
            assets: Vec::new(),
            shader: None,
            material: None,
            lights: None,
            rotation: Vec3::zero(),
            position: Vec3::zero(),
        }
    }
}

} // verus!
