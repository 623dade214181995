//! Entities: what the scene is made of.

use vstd::prelude::*;
use crate::behaviour::Behaviour;
use crate::context::DrawableContext;
use crate::light::Light;
use crate::renderable::{Renderable, Tweens};
use crate::scalar::{Scalar, Vec3};
use crate::state::AppState;
use crate::transition::Easing;
use crate::uniform::DrawCall;

verus! {

/// The bit pattern of the time that a turn towards a new rotation takes:
/// the number 100.
pub const TURN_DURATION: u32 = 0x42c8_0000;

/// Where an entity is and how it is turned, and whether that has changed
/// since its renderable last took it over.
#[derive(Clone, Copy, Debug, PartialEq, Eq, Structural)]
pub struct EntityState {
    pub position: Vec3,
    /// In degrees about the three axes.
    pub rotation: Vec3,
    pub is_dirty: bool,
}

/// The renderable after it has taken over the state of its entity. Where
/// the state has not changed, it is as before. Else it is at the entity's
/// position at once, and it is asked to turn to the entity's rotation, in
/// the time [`TURN_DURATION`] and along [`Easing::EaseInOut`]: see
/// [`Renderable::turned_to`]. A tween that already heads for that rotation
/// is left to run.
pub open spec fn synced(renderable: Renderable, state: EntityState) -> Renderable {
    if !state.is_dirty {
        renderable
    } else {
        (Renderable { position: state.position, ..renderable }).turned_to(
            state.rotation,
            Scalar { bits: TURN_DURATION },
            Easing::EaseInOut,
        )
    }
}

impl EntityState {
    /// A state that no renderable has taken over yet.
    pub fn new(position: Vec3, rotation: Vec3) -> (state: EntityState)
        ensures
            state == (EntityState { position, rotation, is_dirty: true }),
    {
        EntityState { position, rotation, is_dirty: true }
    }

    /// Hands the state to the renderable, if it has changed: see
    /// [`synced`]. After that it counts as unchanged.
    pub fn sync_with_renderable(&mut self, renderable: &mut Renderable)
        ensures
            *final(renderable) == synced(*old(renderable), *old(self)),
            *final(self) == (EntityState { is_dirty: false, ..*old(self) }),
    {
        if !self.is_dirty {
            return ;
        }
        renderable.translate(self.position);
        renderable.smooth_rotate(self.rotation, Scalar::from_bits(TURN_DURATION), Easing::EaseInOut);
        self.is_dirty = false;
    }

    pub fn set_position(&mut self, position: Vec3)
        ensures
            *final(self) == (EntityState { position, is_dirty: true, ..*old(self) }),
    {
        self.position = position;
        self.is_dirty = true;
    }

    pub fn set_rotation(&mut self, rotation: Vec3)
        ensures
            *final(self) == (EntityState { rotation, is_dirty: true, ..*old(self) }),
    {
        self.rotation = rotation;
        self.is_dirty = true;
    }

    pub fn get_position(&self) -> (position: Vec3)
        ensures
            position == self.position,
    {
        self.position
    }

    pub fn get_rotation(&self) -> (rotation: Vec3)
        ensures
            rotation == self.rotation,
    {
        self.rotation
    }
}

/// A thing in the scene: who it is, where it is, what it shows and what it
/// does. Its id is 0 until a buffer has taken it in.
pub struct Entity {
    pub id: u32,
    pub renderable: Option<Renderable>,
    pub behaviour: Option<Box<dyn Behaviour>>,
    pub state: EntityState,
}

impl Entity {
    pub open spec fn spec_is_renderable(&self) -> bool {
        self.renderable is Some
    }

    /// Whether the entity shows something that carries a light.
    pub open spec fn spec_is_light_source(&self) -> bool {
        self.renderable is Some && self.renderable->0.light is Some
    }

    /// The entity's light, placed where the entity is.
    pub open spec fn light(&self) -> Option<Light> {
        if self.spec_is_light_source() {
            Some(self.renderable->0.light->0.at(self.state.position))
        } else {
            None
        }
    }

    /// The entity with its light placed where the entity is.
    pub open spec fn lit(self) -> Entity {
        if self.spec_is_light_source() {
            Entity { renderable: Some(Renderable { light: self.light(), ..self.renderable->0 }), ..self }
        } else {
            self
        }
    }

    /// Whether the entity can be drawn in the frame: it shows something,
    /// and that has the name of a shader which the frame's asset table
    /// holds.
    pub open spec fn drawable(&self, frame: &DrawableContext) -> bool {
        self.renderable is Some && self.renderable->0.drawable(frame)
    }

    /// The entity after a draw: its renderable has taken over its state
    /// and taken the frame's step on its tweens.
    pub open spec fn drawn(self, tweens: Tweens) -> Entity
        recommends
            self.renderable is Some,
    {
        Entity {
            renderable: Some(synced(self.renderable->0, self.state).after_transitions(tweens)),
            state: EntityState { is_dirty: false, ..self.state },
            ..self
        }
    }

    /// Whether `after` and `state_after` are the entity and the shared
    /// state after the entity's update for a frame of the length `dt`,
    /// with the shared state `state` before it. The entity's behaviour is
    /// handed `dt`, the entity's state and the shared state, and what it
    /// leaves of the two is what they are after. The entity keeps its id,
    /// what it shows, and its behaviour. Without a behaviour nothing
    /// changes.
    pub open spec fn updated(self, dt: Scalar, state: AppState, after: Entity, state_after: AppState) -> bool {
        &&& after.id == self.id
        &&& after.renderable == self.renderable
        &&& after.behaviour is Some <==> self.behaviour is Some
        &&& match self.behaviour {
            Some(behaviour) => behaviour.leaves(dt, self.state, state, after.state, state_after),
            None => after.state == self.state && state_after == state,
        }
    }

    /// An entity at `position`, unturned, that shows nothing and does
    /// nothing, and that no buffer has taken in.
    pub fn new(position: Vec3) -> (entity: Entity)
        ensures
            entity.id == 0,
            entity.renderable is None,
            entity.behaviour is None,
            entity.state == (EntityState {
                position,
                rotation: Vec3 { x: Scalar { bits: 0 }, y: Scalar { bits: 0 }, z: Scalar { bits: 0 } },
                is_dirty: true,
            }),
    {
        Entity { id: 0, renderable: None, behaviour: None, state: EntityState::new(position, Vec3::zero()) }
    }

    pub fn register(&mut self, id: u32)
        ensures
            *final(self) == (Entity { id, ..*old(self) }),
    {
        self.id = id;
    }

    pub fn add_renderable(&mut self, renderable: Renderable)
        ensures
            *final(self) == (Entity { renderable: Some(renderable), ..*old(self) }),
    {
        self.renderable = Some(renderable);
    }

    #[verifier::when_used_as_spec(spec_is_renderable)]
    pub fn is_renderable(&self) -> (renderable: bool)
        ensures
            renderable == self.spec_is_renderable(),
    {
        self.renderable.is_some()
    }

    pub fn add_behaviour(&mut self, behaviour: Box<dyn Behaviour>)
        ensures
            *final(self) == (Entity { behaviour: Some(behaviour), ..*old(self) }),
    {
        self.behaviour = Some(behaviour);
    }

    #[verifier::when_used_as_spec(spec_is_light_source)]
    pub fn is_light_source(&self) -> (lit: bool)
        ensures
            lit == self.spec_is_light_source(),
    {
        match &self.renderable {
            Some(renderable) => renderable.is_light_source(),
            None => false,
        }
    }

    /// The entity's light, placed where the entity is now; the light that
    /// the renderable holds is placed there too. The position is the
    /// entity's own, whatever tween its renderable is on.
    pub fn get_light(&mut self) -> (light: Option<Light>)
        ensures
            light == old(self).light(),
            *final(self) == old(self).lit(),
    {
        let position = self.state.position;
        match &mut self.renderable {
            Some(renderable) => match &mut renderable.light {
                Some(light) => Some(*light.with_position(position)),
                None => None,
            },
            None => None,
        }
    }

    /// Lets the entity's behaviour, if it has one, act on the entity's
    /// state and on the shared state, for a frame of the length `dt`: see
    /// [`Entity::updated`].
    pub fn update(&mut self, dt: Scalar, state: &mut AppState)
        ensures
            old(self).updated(dt, *old(state), *final(self), *final(state)),
    {
        match &mut self.behaviour {
            Some(behaviour) => {
                behaviour.update(dt, &mut self.state, state);
            },
            None => {},
        }
    }

    /// Draws the entity: its renderable takes over the entity's state and
    /// is drawn.
    pub fn draw(&mut self, ctx: &mut DrawableContext, tweens: Tweens) -> (call: DrawCall)
        requires
            old(self).drawable(old(ctx)),
            old(ctx).lights_placed(),
        ensures
            *final(self) == old(self).drawn(tweens),
            *final(ctx) == final(self).renderable->0.context(*old(ctx)),
            final(self).renderable->0.mesh.draws(final(ctx), &call),
    {
        let renderable = self.renderable.as_mut().unwrap();
        self.state.sync_with_renderable(renderable);
        renderable.draw(ctx, tweens)
    }
}

} // verus!
