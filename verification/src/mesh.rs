//! Geometry on the GPU, and the draw call that shows it.

use vstd::prelude::*;
use crate::context::{lights_uniforms, DrawableContext};
use crate::scalar::Scalar;
use crate::uniform::{named, settings, DrawCall, Uniform, UniformValue};

verus! {

/// The numbers of one vertex: three of its position, three of its normal.
pub const VERTEX_SIZE: usize = 6;

/// The bytes from one vertex to the next.
pub const STRIDE: i32 = 24;

/// The bytes from the start of a vertex to its normal.
pub const NORMAL_OFFSET: i32 = 12;

/// Where the shader finds one attribute of a vertex in the vertex buffer.
#[derive(Clone, Debug, PartialEq, Eq)]
pub struct VertexAttribute {
    /// The attribute's name in the shader.
    pub name: String,
    /// Its index in the vertex array.
    pub index: u32,
    /// How many numbers it has.
    pub size: i32,
    /// The bytes from one vertex to the next.
    pub stride: i32,
    /// The bytes from the start of a vertex to the attribute.
    pub offset: i32,
}

impl View for VertexAttribute {
    type V = (Seq<char>, u32, i32, i32, i32);

    open spec fn view(&self) -> (Seq<char>, u32, i32, i32, i32) {
        (self.name@, self.index, self.size, self.stride, self.offset)
    }
}

/// Geometry that the host has put on the GPU: the handles under which the
/// host keeps its vertex array and its vertex buffer, and the number of
/// vertices to draw.
#[derive(Clone, Copy, Debug, PartialEq, Eq, Structural)]
pub struct Mesh {
    pub vao: u32,
    pub vbo: u32,
    pub triangles: usize,
}

impl Mesh {
    /// Whether `call` is the draw of this mesh in the context `ctx`: it
    /// draws the mesh's vertices from its vertex array, with the context's
    /// shader and the context's uniforms, or with neither where the
    /// context has no shader.
    pub open spec fn draws(&self, ctx: &DrawableContext, call: &DrawCall) -> bool {
        &&& call.vao == self.vao
        &&& call.triangles == self.triangles
        &&& match ctx.shader {
            Some(shader) => {
                &&& call.shader is Some
                &&& call.shader->0@ == shader@
                &&& settings(call.uniforms@) == ctx.uniforms()
            },
            None => call.shader is None && call.uniforms@.len() == 0,
        }
    }

    /// The mesh of the vertex data given, which the host holds on the GPU
    /// under the two handles. One vertex is six numbers.
    pub fn new(vao: u32, vbo: u32, vertices: &Vec<Scalar>) -> (mesh: Mesh)
        ensures
            mesh == (Mesh { vao, vbo, triangles: (vertices@.len() / 6) as usize }),
    {
        Mesh { vao, vbo, triangles: vertices.len() / VERTEX_SIZE }
    }

    /// The layout of the vertex buffer: the position first, the normal
    /// behind it, three numbers each.
    pub fn load_attributes(&self) -> (attributes: Vec<VertexAttribute>)
        ensures
            attributes@.len() == 2,
            attributes@[0]@ == ("a_Position"@, 0u32, 3i32, 24i32, 0i32),
            attributes@[1]@ == ("a_Normal"@, 1u32, 3i32, 24i32, 12i32),
    {
        let mut attributes = Vec::new();
        attributes.push(
            VertexAttribute { name: "a_Position".to_string(), index: 0, size: 3, stride: STRIDE, offset: 0 },
        );
        attributes.push(
            VertexAttribute {
                name: "a_Normal".to_string(),
                index: 1,
                size: 3,
                stride: STRIDE,
                offset: NORMAL_OFFSET,
            },
        );
        attributes
    }

    /// The draw of the mesh in the context given. A shader chosen there
    /// must be one that the context's asset table holds.
    pub fn draw(&self, ctx: &DrawableContext) -> (call: DrawCall)
        requires
            ctx.shader is Some ==> ctx.spec_has_shader(&ctx.shader->0),
            ctx.shader is Some ==> ctx.lights_placed(),
        ensures
            self.draws(ctx, &call),
    {
        let mut uniforms: Vec<Uniform> = Vec::new();
        let shader = match &ctx.shader {
            Some(shader) => {
                uniforms.push(
                    named("u_Model", UniformValue::Model { position: ctx.position, rotation: ctx.rotation }),
                );
                uniforms.push(named("u_View", UniformValue::View));
                uniforms.push(named("u_Projection", UniformValue::Projection));
                uniforms.push(named("u_ViewPos", UniformValue::ViewPosition));
                let ghost head = settings(uniforms@);
                if let Some(material) = &ctx.material {
                    material.apply_to_shader(&mut uniforms);
                }
                let ghost body = settings(uniforms@);
                if let Some(lights) = &ctx.lights {
                    let mut i: usize = 0;
                    while i < lights.len()
                        invariant
                            i <= lights@.len(),
                            ctx.lights == Some(*lights),
                            ctx.lights_placed(),
                            settings(uniforms@) == body + lights_uniforms(lights@, i as nat),
                        decreases lights@.len() - i,
                    {
                        lights[i].apply_to_shader(&mut uniforms, i);
                        assert(settings(uniforms@) =~= body + lights_uniforms(lights@, (i + 1) as nat));
                        i += 1;
                    }
                }
                assert(settings(uniforms@) =~= ctx.uniforms());
                Some(shader.clone())
            },
            None => None,
        };
        DrawCall { shader, uniforms, vao: self.vao, triangles: self.triangles }
    }
}

} // verus!
