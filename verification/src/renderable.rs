//! What an entity shows: a mesh with its material, perhaps a light, the
//! name of its shader, and the rotation and position it is drawn with.

use vstd::prelude::*;
use crate::context::DrawableContext;
use crate::light::Light;
use crate::material::Material;
use crate::mesh::{Mesh, VertexAttribute};
use crate::scalar::{Scalar, Vec3};
use crate::transition::{Easing, Transition, TweenSample};
use crate::uniform::DrawCall;

verus! {

/// What the host worked out for the tweens of one renderable in one frame:
/// a sample for its rotation and one for its position, each where such a
/// tween is under way.
#[derive(Clone, Copy, Debug, PartialEq, Eq)]
pub struct Tweens {
    pub rotation: Option<TweenSample<Vec3>>,
    pub position: Option<TweenSample<Vec3>>,
}

/// A value and the tween it is on, after a step: without a tween or
/// without a sample nothing changes. With both, the tween keeps the
/// sample's time. If that ends it, the tween is dropped and the value is
/// its end, exactly; if not, the value is the sample's.
pub open spec fn stepped(
    value: Vec3,
    transition: Option<Transition<Vec3>>,
    sample: Option<TweenSample<Vec3>>,
) -> (Vec3, Option<Transition<Vec3>>) {
    match (transition, sample) {
        (Some(transition), Some(sample)) => {
            let run = transition.run_to(sample.elapsed);
            if run.spec_is_finished() {
                (run.end, None)
            } else {
                (sample.value, Some(run))
            }
        },
        _ => (value, transition),
    }
}

/// The drawable side of an entity.
#[derive(Clone, Debug, PartialEq, Eq)]
pub struct Renderable {
    pub mesh: Mesh,
    pub material: Material,
    pub light: Option<Light>,
    /// The shader to draw with, by its name in the asset table.
    pub shader: Option<String>,
    /// The rotation last drawn with, in degrees about the three axes.
    /// While a tween is under way it lags behind the entity's.
    pub rotation: Vec3,
    /// The position last drawn with.
    pub position: Vec3,
    pub rotation_transition: Option<Transition<Vec3>>,
    pub position_transition: Option<Transition<Vec3>>,
}

impl Renderable {
    /// The rotation that the renderable is heading for: the end of its
    /// tween where one is under way, else the rotation it has.
    pub open spec fn spec_rotation_target(&self) -> Vec3 {
        match self.rotation_transition {
            Some(transition) => transition.end,
            None => self.rotation,
        }
    }

    /// The renderable after it was asked to turn to `rotation`. Where that
    /// is, as numbers are equal, the rotation that the renderable is
    /// heading for, nothing changes: neither the rotation it has nor a
    /// tween under way, with the time that has run of it. Else a new tween
    /// from the rotation it has to `rotation`, of which no time has run,
    /// takes the place of any tween of the rotation under way.
    pub open spec fn turned_to(self, rotation: Vec3, duration: Scalar, function: Easing) -> Renderable {
        if self.spec_rotation_target().spec_equals(&rotation) {
            self
        } else {
            Renderable {
                rotation_transition: Some(
                    Transition { start: self.rotation, end: rotation, duration, elapsed: Scalar { bits: 0 }, function },
                ),
                ..self
            }
        }
    }

    /// The renderable after the tweens of a frame: see [`stepped`].
    pub open spec fn after_transitions(self, tweens: Tweens) -> Renderable {
        let rotation = stepped(self.rotation, self.rotation_transition, tweens.rotation);
        let position = stepped(self.position, self.position_transition, tweens.position);
        Renderable {
            mesh: self.mesh,
            material: self.material,
            light: self.light,
            shader: self.shader,
            rotation: rotation.0,
            position: position.0,
            rotation_transition: rotation.1,
            position_transition: position.1,
        }
    }

    /// The context in which the renderable is drawn: its own rotation,
    /// position, shader and material, with the asset table and the lights
    /// of the frame.
    pub open spec fn context(&self, frame: DrawableContext) -> DrawableContext {
        DrawableContext {
            assets: frame.assets,
            shader: self.shader,
            material: Some(self.material),
            lights: frame.lights,
            rotation: self.rotation,
            position: self.position,
        }
    }

    /// Whether the renderable can be drawn in the frame: it has the name
    /// of a shader, and the frame's asset table holds a shader of that
    /// name.
    pub open spec fn drawable(&self, frame: &DrawableContext) -> bool {
        self.shader is Some && frame.spec_has_shader(&self.shader->0)
    }

    /// A renderable at the origin, unturned, with no light and no shader
    /// yet.
    pub fn new(mesh: Mesh, material: Material) -> (renderable: Renderable)
        ensures
            renderable.mesh == mesh,
            renderable.material == material,
            renderable.light is None,
            renderable.shader is None,
            renderable.rotation == (Vec3 { x: Scalar { bits: 0 }, y: Scalar { bits: 0 }, z: Scalar { bits: 0 } }),
            renderable.position == (Vec3 { x: Scalar { bits: 0 }, y: Scalar { bits: 0 }, z: Scalar { bits: 0 } }),
            renderable.rotation_transition is None,
            renderable.position_transition is None,
    {
        Renderable {
            mesh,
            material,
            shader: None,
            light: None,
            rotation: Vec3::zero(),
            position: Vec3::zero(),
            rotation_transition: None,
            position_transition: None,
        }
    }

    /// The name of the shader to draw with.
    pub fn get_shader(&self) -> (shader: &String)
        requires
            self.shader is Some,
        ensures
            *shader == self.shader->0,
    {
        self.shader.as_ref().unwrap()
    }

    /// The layout of the mesh's vertex buffer, to be set up for the
    /// renderable's shader.
    pub fn load_attributes(&self) -> (attributes: Vec<VertexAttribute>)
        requires
            self.shader is Some,
        ensures
            attributes@.len() == 2,
            attributes@[0]@ == ("a_Position"@, 0u32, 3i32, 24i32, 0i32),
            attributes@[1]@ == ("a_Normal"@, 1u32, 3i32, 24i32, 12i32),
    {
        self.mesh.load_attributes()
    }

    pub fn is_light_source(&self) -> (lit: bool)
        ensures
            lit == (self.light is Some),
    {
        self.light.is_some()
    }

    pub fn set_light(&mut self, light: Option<Light>)
        ensures
            *final(self) == (Renderable { light, ..*old(self) }),
    {
        self.light = light;
    }

    /// Moves at once.
    pub fn translate(&mut self, position: Vec3)
        ensures
            *final(self) == (Renderable { position, ..*old(self) }),
    {
        self.position = position;
    }

    /// Sets out for `position`, from where the renderable is, in place of
    /// any tween of the position under way.
    pub fn smooth_translate(&mut self, position: Vec3, duration: Scalar, function: Easing)
        ensures
            *final(self) == (Renderable {
                position_transition: Some(
                    Transition {
                        start: old(self).position,
                        end: position,
                        duration,
                        elapsed: Scalar { bits: 0 },
                        function,
                    },
                ),
                ..*old(self)
            }),
    {
        self.position_transition = Some(Transition::new(self.position, position, duration, function));
    }

    /// Turns at once.
    pub fn rotate(&mut self, rotation: Vec3)
        ensures
            *final(self) == (Renderable { rotation, ..*old(self) }),
    {
        self.rotation = rotation;
    }

    /// Sets out for `rotation`: see [`Renderable::turned_to`]. A tween that
    /// already heads there is left to run, so that nothing snaps.
    pub fn smooth_rotate(&mut self, rotation: Vec3, duration: Scalar, function: Easing)
        ensures
            *final(self) == old(self).turned_to(rotation, duration, function),
    {
        if !self.rotation_target().equals(&rotation) {
            self.rotation_transition = Some(Transition::new(self.rotation, rotation, duration, function));
        }
    }

    /// The rotation that the renderable is heading for.
    #[verifier::when_used_as_spec(spec_rotation_target)]
    pub fn rotation_target(&self) -> (target: Vec3)
        ensures
            target == self.spec_rotation_target(),
    {
        match &self.rotation_transition {
            Some(transition) => transition.end,
            None => self.rotation,
        }
    }

    /// Takes the frame's step on each tween under way.
    pub fn apply_transitions(&mut self, tweens: Tweens)
        ensures
            *final(self) == old(self).after_transitions(tweens),
    {
        let rotation = step(self.rotation, self.rotation_transition, tweens.rotation);
        self.rotation = rotation.0;
        self.rotation_transition = rotation.1;
        let position = step(self.position, self.position_transition, tweens.position);
        self.position = position.0;
        self.position_transition = position.1;
    }

    /// Draws the renderable: takes the frame's step on its tweens, puts
    /// its rotation, position, shader and material into the context, and
    /// has its mesh drawn in that context. The asset table and the lights
    /// of the context stay.
    pub fn draw(&mut self, ctx: &mut DrawableContext, tweens: Tweens) -> (call: DrawCall)
        requires
            old(self).drawable(old(ctx)),
            old(ctx).lights_placed(),
        ensures
            *final(self) == old(self).after_transitions(tweens),
            *final(ctx) == final(self).context(*old(ctx)),
            final(self).mesh.draws(final(ctx), &call),
    {
        self.apply_transitions(tweens);
        ctx.rotation = self.rotation;
        ctx.position = self.position;
        ctx.shader = Some(self.get_shader().clone());
        ctx.material = Some(self.material);
        proof {
            let held = choose|i: int|
                0 <= i < old(ctx).assets@.len() && (#[trigger] old(ctx).assets@[i])@ == old(self).shader->0@;
            assert(ctx.assets@[held]@ == ctx.shader->0@);
        }
        self.mesh.draw(ctx)
    }
}

/// Takes a step on one tween: see [`stepped`].
fn step(value: Vec3, transition: Option<Transition<Vec3>>, sample: Option<TweenSample<Vec3>>) -> (after: (
    Vec3,
    Option<Transition<Vec3>>,
))
    ensures
        after == stepped(value, transition, sample),
{
    match (transition, sample) {
        (Some(transition), Some(sample)) => {
            let mut transition = transition;
            let value = transition.update(sample);
            if transition.is_finished() {
                (transition.end, None)
            } else {
                (value, Some(transition))
            }
        },
        _ => (value, transition),
    }
}

/// However its time is cut into steps, a tween that has run its time
/// leaves the value at its end: two steps of which one ends the tween
/// leave what one step that ends it leaves, whatever values the samples
/// hold.
pub proof fn split_steps_end_alike(
    value: Vec3,
    transition: Transition<Vec3>,
    first: TweenSample<Vec3>,
    second: TweenSample<Vec3>,
    whole: TweenSample<Vec3>,
)
    requires
        first.elapsed.spec_at_least(&transition.duration) || second.elapsed.spec_at_least(&transition.duration),
        whole.elapsed.spec_at_least(&transition.duration),
    ensures
        ({
            let half = stepped(value, Some(transition), Some(first));
            stepped(half.0, half.1, Some(second))
        }) == stepped(value, Some(transition), Some(whole)),
        stepped(value, Some(transition), Some(whole)) == (transition.end, None::<Transition<Vec3>>),
{
}

} // verus!
