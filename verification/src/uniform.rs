//! What a draw call hands to the shader: named values, in the order in
//! which they are to be set.

use vstd::prelude::*;
use vstd::string::StringExecFns;
use crate::scalar::{Scalar, Vec3, Vec4};

verus! {

/// The value of a uniform. The matrices and the eye's place are not
/// computed here: they are named, and whoever issues the draw call works
/// them out from what the variant holds and from its camera.
#[derive(Clone, Copy, Debug, PartialEq, Eq, Structural)]
pub enum UniformValue {
    /// The matrix that moves to `position` and then turns about the x, the
    /// y and the z axis, in that order, by the components of `rotation`.
    Model { position: Vec3, rotation: Vec3 },
    /// The camera's view matrix.
    View,
    /// The camera's projection matrix for the viewport.
    Projection,
    /// The camera's position.
    ViewPosition,
    Vec3(Vec3),
    Vec4(Vec4),
    Float(Scalar),
}

/// A uniform to set: its name in the shader, and its value.
#[derive(Clone, Debug, PartialEq, Eq)]
pub struct Uniform {
    pub name: String,
    pub value: UniformValue,
}

impl View for Uniform {
    type V = (Seq<char>, UniformValue);

    open spec fn view(&self) -> (Seq<char>, UniformValue) {
        (self.name@, self.value)
    }
}

/// The uniforms of a list as contracts see them: name and value of each.
pub open spec fn settings(uniforms: Seq<Uniform>) -> Seq<(Seq<char>, UniformValue)> {
    uniforms.map_values(|u: Uniform| u@)
}

/// One draw of a mesh: the shader to bind, by its name in the asset table,
/// the uniforms to set in order, the vertex array to bind and the number
/// of triangles to draw from it. Without a shader nothing is bound and no
/// uniform is set.
#[derive(Clone, Debug, PartialEq, Eq)]
pub struct DrawCall {
    pub shader: Option<String>,
    pub uniforms: Vec<Uniform>,
    pub vao: u32,
    pub triangles: usize,
}

/// The decimal digit for a number below ten.
pub open spec fn digit(d: nat) -> Seq<char> {
    if d == 0 {
        "0"@
    } else if d == 1 {
        "1"@
    } else if d == 2 {
        "2"@
    } else if d == 3 {
        "3"@
    } else if d == 4 {
        "4"@
    } else if d == 5 {
        "5"@
    } else if d == 6 {
        "6"@
    } else if d == 7 {
        "7"@
    } else if d == 8 {
        "8"@
    } else {
        "9"@
    }
}

/// A number in decimal digits, without leading zeros.
pub open spec fn decimal(n: nat) -> Seq<char>
    decreases n,
{
    if n < 10 {
        digit(n)
    } else {
        decimal(n / 10) + digit(n % 10)
    }
}

fn digit_text(d: usize) -> (text: &'static str)
    requires
        d < 10,
    ensures
        text@ == digit(d as nat),
{
    if d == 0 {
        "0"
    } else if d == 1 {
        "1"
    } else if d == 2 {
        "2"
    } else if d == 3 {
        "3"
    } else if d == 4 {
        "4"
    } else if d == 5 {
        "5"
    } else if d == 6 {
        "6"
    } else if d == 7 {
        "7"
    } else if d == 8 {
        "8"
    } else {
        "9"
    }
}

/// The number in decimal digits.
pub fn decimal_text(n: usize) -> (text: String)
    ensures
        text@ == decimal(n as nat),
    decreases n,
{
    if n < 10 {
        String::from_str(digit_text(n))
    } else {
        let mut text = decimal_text(n / 10);
        text.append(digit_text(n % 10));
        text
    }
}

/// A uniform with the given name.
pub fn named(name: &str, value: UniformValue) -> (uniform: Uniform)
    ensures
        uniform@ == (name@, value),
{
    Uniform { name: String::from_str(name), value }
}

/// The name of a field of a light in the shader's list of lights:
/// `u_Lights[`, the light's index in decimal, `].` and the field.
pub open spec fn light_field(index: nat, field: Seq<char>) -> Seq<char> {
    "u_Lights["@ + decimal(index) + "]."@ + field
}

/// A uniform for a field of the light at `index`.
pub fn light_uniform(index: usize, field: &str, value: UniformValue) -> (uniform: Uniform)
    ensures
        uniform@ == (light_field(index as nat, field@), value),
{
    let mut name = String::from_str("u_Lights[");
    let digits = decimal_text(index);
    name.append(digits.as_str());
    name.append("].");
    name.append(field);
    Uniform { name, value }
}

} // verus!
