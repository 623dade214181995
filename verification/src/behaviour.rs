//! What moves an entity.

use vstd::prelude::*;
use crate::entity::EntityState;
use crate::message::{Message, Transform};
use crate::scalar::{Scalar, Vec3};
use crate::state::AppState;

verus! {

/// What an entity does in each frame. It is handed the time since the last
/// frame, the entity's own place and turn to change, and the state that
/// the host shares with the scene.
pub trait Behaviour {
    /// Whether the behaviour, as it stands, may leave `entity_after` and
    /// `state_after` of the entity's state `entity` and the shared state
    /// `state`, after a frame of the length `dt`. A behaviour says here
    /// what its `update` does; the scene asks no more of it than that. One
    /// that says nothing may leave anything.
    open spec fn leaves(
        &self,
        dt: Scalar,
        entity: EntityState,
        state: AppState,
        entity_after: EntityState,
        state_after: AppState,
    ) -> bool {
        true
    }

    /// Acts for one frame.
    fn update(&mut self, dt: Scalar, entity: &mut EntityState, state: &mut AppState)
        ensures
            old(self).leaves(dt, *old(entity), *old(state), *final(entity), *final(state)),
    ;
}

/// The rotation that a message asks for, if it reports one.
pub open spec fn rotation_asked(message: Message) -> Option<Vec3> {
    match message {
        Message::Transform(Transform::Rotate(rotation)) => Some(rotation),
        _ => None,
    }
}

/// The rotation that the first `n` messages leave behind: the one that the
/// last of them to report a rotation asks for.
pub open spec fn last_rotation(messages: Seq<Message>, n: nat) -> Option<Vec3>
    decreases n,
{
    if n == 0 {
        None
    } else {
        match rotation_asked(messages[n - 1]) {
            Some(rotation) => Some(rotation),
            None => last_rotation(messages, (n - 1) as nat),
        }
    }
}

/// Turns an entity as the messages of a peer say: each report of a
/// rotation sets the entity's rotation, in the order of arrival, and every
/// other message is passed over. Without such a report the entity stays as
/// it is.
pub fn follow_rotations(entity: &mut EntityState, messages: &Vec<Message>)
    ensures
        *final(entity) == (match last_rotation(messages@, messages@.len()) {
            Some(rotation) => EntityState { position: old(entity).position, rotation, is_dirty: true },
            None => *old(entity),
        }),
{
    let mut i: usize = 0;
    while i < messages.len()
        invariant
            i <= messages@.len(),
            *entity == (match last_rotation(messages@, i as nat) {
                Some(rotation) => EntityState { position: old(entity).position, rotation, is_dirty: true },
                None => *old(entity),
            }),
        decreases messages@.len() - i,
    {
        match &messages[i] {
            Message::Transform(transform) => match transform {
                Transform::Rotate(rotation) => entity.set_rotation(*rotation),
                _ => {},
            },
            _ => {},
        }
        i += 1;
    }
}

} // verus!
