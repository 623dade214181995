//! The entities of a scene, in the order in which they came.

use vstd::prelude::*;
use crate::context::DrawableContext;
use crate::entity::Entity;
use crate::light::Light;
use crate::renderable::Tweens;
use crate::scalar::Scalar;
use crate::state::AppState;
use crate::uniform::DrawCall;

verus! {

/// The entities of a scene. Each gets an id when it is taken in: the ids
/// start at 1 and grow by one with every entity, and none is given twice,
/// whatever is removed in between.
pub struct EntityBuffer {
    /// The id given last; 0 before the first.
    last_id: u32,
    entities: Vec<Entity>,
}

impl View for EntityBuffer {
    type V = Scene;

    /// The id given last, and the entities in their order.
    closed spec fn view(&self) -> Scene {
        Scene { last_id: self.last_id, entities: self.entities@ }
    }
}

/// Whether `at` is the first place in `entities` with an entity of the id
/// given.
pub open spec fn first_with(entities: Seq<Entity>, id: u32, at: int) -> bool {
    &&& 0 <= at < entities.len()
    &&& entities[at].id == id
    &&& forall|j: int| 0 <= j < at ==> entities[j].id != id
}

/// Whether some entity has the id given.
pub open spec fn holds(entities: Seq<Entity>, id: u32) -> bool {
    exists|at: int| 0 <= at < entities.len() && #[trigger] entities[at].id == id
}

/// The entities without those of the id given, in their order.
pub open spec fn without(entities: Seq<Entity>, id: u32) -> Seq<Entity> {
    entities.filter(|e: Entity| e.id != id)
}

/// The entities that show something, in their order.
pub open spec fn renderables(entities: Seq<Entity>) -> Seq<Entity> {
    entities.filter(|e: Entity| e.spec_is_renderable())
}

/// The lights of the entities that carry one, in the entities' order, each
/// placed where its entity is.
pub open spec fn lights_of(entities: Seq<Entity>) -> Seq<Light> {
    entities.filter(|e: Entity| e.spec_is_light_source()).map_values(|e: Entity| e.light()->0)
}

/// How many of the first `n` entities show something.
pub open spec fn shown_before(entities: Seq<Entity>, n: int) -> nat
    decreases n,
{
    if n <= 0 {
        0
    } else {
        shown_before(entities, n - 1) + if entities[n - 1].spec_is_renderable() {
            1nat
        } else {
            0nat
        }
    }
}

/// The samples for the renderable drawn as number `k` of a frame: those at
/// place `k` of the list, and none where the list is too short.
pub open spec fn tweens_for(tweens: Seq<Tweens>, k: int) -> Tweens {
    if 0 <= k < tweens.len() {
        tweens[k]
    } else {
        Tweens { rotation: None, position: None }
    }
}

/// An entity after a frame was drawn: its light is placed, and if it shows
/// something, that was drawn with the samples given.
pub open spec fn framed(entity: Entity, tweens: Tweens) -> Entity {
    if entity.spec_is_renderable() {
        entity.lit().drawn(tweens)
    } else {
        entity
    }
}

/// Whether `states` are the shared state before the first entity's update
/// and after each one's, with `after` as the entities after theirs: each
/// entity is updated on the state that the one before it left.
pub open spec fn passed_on(entities: Seq<Entity>, dt: Scalar, after: Seq<Entity>, states: Seq<AppState>) -> bool {
    &&& after.len() == entities.len()
    &&& states.len() == entities.len() + 1
    &&& forall|i: int|
        0 <= i < entities.len() ==> (#[trigger] entities[i]).updated(dt, states[i], after[i], states[i + 1])
}

/// Whether `after` and `state_after` are the entities and the shared state
/// after every entity's update for a frame of the length `dt`, in their
/// order, with the shared state `state` before the first.
pub open spec fn updated_all(
    entities: Seq<Entity>,
    dt: Scalar,
    state: AppState,
    after: Seq<Entity>,
    state_after: AppState,
) -> bool {
    exists|states: Seq<AppState>|
        {
            &&& #[trigger] passed_on(entities, dt, after, states)
            &&& states[0] == state
            &&& states[entities.len() as int] == state_after
        }
}

/// One step of a filter along a sequence: the next item is appended where
/// it passes.
proof fn lemma_filter_next<A>(s: Seq<A>, pred: spec_fn(A) -> bool, i: int)
    requires
        0 <= i < s.len(),
    ensures
        s.take(i + 1).filter(pred) == if pred(s[i]) {
            s.take(i).filter(pred).push(s[i])
        } else {
            s.take(i).filter(pred)
        },
{
    reveal(Seq::filter);
    assert(s.take(i + 1).drop_last() =~= s.take(i));
}

impl EntityBuffer {
    /// Whether the ids are as the buffer gives them: from 1 to the id
    /// given last, and growing along the entities.
    pub open spec fn wf(&self) -> bool {
        self@.wf()
    }

    /// The id given last; 0 before the first.
    pub fn last_id(&self) -> (id: u32)
        ensures
            id == self@.last_id,
    {
        self.last_id
    }

    /// The entities, in the order in which they came.
    pub fn entities(&self) -> (entities: &Vec<Entity>)
        ensures
            entities@ == self@.entities,
    {
        &self.entities
    }

    /// A buffer without entities, which has given no id yet.
    pub fn new() -> (buffer: EntityBuffer)
        ensures
            buffer@.last_id == 0,
            buffer@.entities.len() == 0,
            buffer.wf(),
    {
        EntityBuffer { last_id: 0, entities: Vec::new() }
    }

    /// Takes the entity in, behind the others, under the next id.
    pub fn add(&mut self, entity: Entity)
        requires
            old(self)@.last_id < u32::MAX,
        ensures
            final(self)@.last_id == old(self)@.last_id + 1,
            final(self)@.entities == old(self)@.entities.push(
                Entity { id: (old(self)@.last_id + 1) as u32, ..entity },
            ),
            final(self)@ == old(self)@.after(Step::Add(entity)),
            old(self).wf() ==> final(self).wf(),
    {
        let mut entity = entity;
        self.last_id += 1;
        entity.register(self.last_id);
        self.entities.push(entity);
    }

    /// Where the first entity with the id stands.
    fn position(&self, id: u32) -> (at: Option<usize>)
        ensures
            match at {
                Some(i) => first_with(self@.entities, id, i as int),
                None => !holds(self@.entities, id),
            },
    {
        let mut i: usize = 0;
        while i < self.entities.len()
            invariant
                i <= self@.entities.len(),
                forall|j: int| 0 <= j < i ==> self@.entities[j].id != id,
            decreases self@.entities.len() - i,
        {
            if self.entities[i].id == id {
                return Some(i);
            }
            i += 1;
        }
        None
    }

    /// The first entity with the id, if there is one.
    pub fn get(&self, id: u32) -> (entity: Option<&Entity>)
        ensures
            match entity {
                Some(e) => exists|at: int| first_with(self@.entities, id, at) && *e == self@.entities[at],
                None => !holds(self@.entities, id),
            },
    {
        match self.position(id) {
            Some(i) => Some(&self.entities[i]),
            None => None,
        }
    }

    /// The first entity with the id, if there is one, to change. What is
    /// done to it is done in the buffer, and nothing else changes.
    pub fn get_mut(&mut self, id: u32) -> (entity: Option<&mut Entity>)
        ensures
            final(self)@.last_id == old(self)@.last_id,
            match entity {
                Some(e) => exists|at: int|
                    {
                        &&& first_with(old(self)@.entities, id, at)
                        &&& *e == old(self)@.entities[at]
                        &&& final(self)@.entities == old(self)@.entities.update(at, *final(e))
                    },
                None => !holds(old(self)@.entities, id) && final(self)@.entities == old(self)@.entities,
            },
    {
        match self.position(id) {
            Some(i) => Some(&mut self.entities[i]),
            None => None,
        }
    }

    /// Takes out the entities with the id; without one, nothing changes.
    /// The id is not given again.
    pub fn remove(&mut self, id: u32)
        ensures
            final(self)@.last_id == old(self)@.last_id,
            final(self)@.entities == without(old(self)@.entities, id),
            final(self)@ == old(self)@.after(Step::Remove(id)),
            old(self).wf() ==> final(self).wf(),
    {
        let ghost all = self@.entities;
        let ghost mut done: int = 0;
        let mut i: usize = 0;
        while i < self.entities.len()
            invariant
                self.last_id == old(self)@.last_id,
                0 <= done <= all.len(),
                i <= self@.entities.len(),
                self@.entities.len() - i == all.len() - done,
                self@.entities.take(i as int) == without(all.take(done), id),
                self@.entities.skip(i as int) == all.skip(done),
            decreases self@.entities.len() - i,
        {
            proof {
                lemma_filter_next(all, |e: Entity| e.id != id, done);
                assert(self@.entities[i as int] == self@.entities.skip(i as int)[0]);
                assert(all[done] == all.skip(done)[0]);
            }
            let ghost before = self@.entities;
            if self.entities[i].id == id {
                self.entities.remove(i);
                proof {
                    assert(self@.entities.take(i as int) =~= before.take(i as int));
                    assert(self@.entities.skip(i as int) =~= before.skip(i as int).skip(1));
                    assert(all.skip(done + 1) =~= all.skip(done).skip(1));
                }
            } else {
                proof {
                    assert(before.take(i + 1) =~= before.take(i as int).push(before[i as int]));
                    assert(before.skip(i + 1) =~= before.skip(i as int).skip(1));
                    assert(all.skip(done + 1) =~= all.skip(done).skip(1));
                }
                i += 1;
            }
            proof {
                done = done + 1;
            }
        }
        proof {
            assert(all.take(all.len() as int) =~= all);
            assert(self@.entities.take(i as int) =~= self@.entities);
        }
        proof {
            if old(self).wf() {
                lemma_without_keeps_order(all, id, old(self)@.last_id);
            }
        }
    }

    /// The entities that show something, in the order in which they came.
    pub fn get_renderables(&self) -> (shown: Vec<&Entity>)
        ensures
            shown@.map_values(|e: &Entity| *e) == renderables(self@.entities),
    {
        let mut shown: Vec<&Entity> = Vec::new();
        let mut i: usize = 0;
        while i < self.entities.len()
            invariant
                i <= self@.entities.len(),
                shown@.map_values(|e: &Entity| *e) == renderables(self@.entities.take(i as int)),
            decreases self@.entities.len() - i,
        {
            proof {
                lemma_filter_next(self@.entities, |e: Entity| e.spec_is_renderable(), i as int);
            }
            let ghost before = shown@;
            if self.entities[i].is_renderable() {
                shown.push(&self.entities[i]);
                assert(shown@.map_values(|e: &Entity| *e) =~= before.map_values(|e: &Entity| *e).push(
                    self@.entities[i as int],
                ));
            }
            i += 1;
        }
        assert(self@.entities.take(i as int) =~= self@.entities);
        shown
    }

    /// The entities that show something, in the order in which they came,
    /// to change. What is done to them is done in the buffer, and nothing
    /// else changes.
    pub fn get_renderables_mut(&mut self) -> (shown: Vec<&mut Entity>)
        ensures
            shown@.map_values(|e: &mut Entity| *e) == renderables(old(self)@.entities),
            shown@.len() == shown_before(old(self)@.entities, old(self)@.entities.len() as int),
            final(self)@.last_id == old(self)@.last_id,
            final(self)@.entities.len() == old(self)@.entities.len(),
            forall|i: int|
                0 <= i < old(self)@.entities.len() ==> #[trigger] final(self)@.entities[i] == if old(
                    self,
                )@.entities[i].spec_is_renderable() {
                    *final(shown@[shown_before(old(self)@.entities, i) as int])
                } else {
                    old(self)@.entities[i]
                },
    {
        let ghost all = self@.entities;
        let mut shown: Vec<&mut Entity> = Vec::new();
        let mut rest: &mut [Entity] = self.entities.as_mut_slice();
        let ghost whole = final(rest)@;
        let ghost mut done: int = 0;
        while rest.len() > 0
            invariant
                0 <= done <= all.len(),
                rest@ == all.skip(done),
                shown@.map_values(|e: &mut Entity| *e) == renderables(all.take(done)),
                shown@.len() == shown_before(all, done),
                whole.len() == done + final(rest)@.len(),
                forall|i: int| 0 <= i < final(rest)@.len() ==> whole[done + i] == #[trigger] final(rest)@[i],
                forall|i: int|
                    0 <= i < done ==> #[trigger] whole[i] == if all[i].spec_is_renderable() {
                        *final(shown@[shown_before(all, i) as int])
                    } else {
                        all[i]
                    },
            decreases rest@.len(),
        {
            let ghost tail_before = final(rest)@;
            let (head, tail) = rest.split_at_mut(1);
            rest = tail;
            proof {
                lemma_filter_next(all, |e: Entity| e.spec_is_renderable(), done);
                lemma_shown_before_grows(all, done);
                assert(head@[0] == all[done]);
            }
            let ghost before = shown@;
            let ghost head_final = final(head)@;
            if head[0].is_renderable() {
                shown.push(&mut head[0]);
                assert(shown@.map_values(|e: &mut Entity| *e) =~= before.map_values(|e: &mut Entity| *e).push(
                    all[done],
                ));
            }
            proof {
                assert forall|i: int| 0 <= i < done && all[i].spec_is_renderable() implies shown_before(all, i)
                    < shown_before(all, done) by {
                    lemma_shown_before_counts(all, i, done);
                }
                assert(tail_before =~= head_final + final(rest)@);
                assert(head_final.len() == 1);
                assert(whole[done] == tail_before[0]);
                let rest_after = final(rest)@;
                assert forall|i: int| 0 <= i < rest_after.len() implies whole[done + 1 + i]
                    == #[trigger] rest_after[i] by {
                    assert(whole[done + (1 + i)] == tail_before[1 + i]);
                }
                done = done + 1;
            }
        }
        assert(all.take(done) =~= all);
        shown
    }

    /// The lights of the scene for this frame: one for each entity that
    /// carries a light, in the entities' order, placed where the entity is
    /// now. The lights that the entities hold are placed there too.
    pub fn get_lights(&mut self) -> (lights: Vec<Light>)
        ensures
            lights@ == lights_of(old(self)@.entities),
            final(self)@.last_id == old(self)@.last_id,
            final(self)@.entities == old(self)@.entities.map_values(|e: Entity| e.lit()),
    {
        let ghost all = self@.entities;
        let mut lights: Vec<Light> = Vec::new();
        let mut i: usize = 0;
        while i < self.entities.len()
            invariant
                self.last_id == old(self)@.last_id,
                i <= all.len(),
                self@.entities.len() == all.len(),
                forall|j: int| 0 <= j < i ==> self@.entities[j] == all[j].lit(),
                forall|j: int| i <= j < all.len() ==> self@.entities[j] == all[j],
                lights@ == lights_of(all.take(i as int)),
            decreases all.len() - i,
        {
            proof {
                lemma_filter_next(all, |e: Entity| e.spec_is_light_source(), i as int);
            }
            let ghost before = lights@;
            let ghost lit = all.take(i as int).filter(|e: Entity| e.spec_is_light_source());
            if self.entities[i].is_light_source() {
                let light = self.entities[i].get_light().unwrap();
                lights.push(light);
                assert(lights@ =~= lit.push(all[i as int]).map_values(|e: Entity| e.light()->0));
            }
            i += 1;
        }
        assert(all.take(i as int) =~= all);
        assert(self@.entities =~= all.map_values(|e: Entity| e.lit()));
        lights
    }

    /// Lets every entity act for a frame of the length `dt`, in the order
    /// in which they came, each on the shared state as the one before it
    /// left it: see [`updated_all`]. No entity comes or goes, and none
    /// changes its id or what it shows; one without a behaviour does not
    /// change at all.
    pub fn update(&mut self, dt: Scalar, state: &mut AppState)
        ensures
            final(self)@.last_id == old(self)@.last_id,
            updated_all(old(self)@.entities, dt, *old(state), final(self)@.entities, *final(state)),
            old(self).wf() ==> final(self).wf(),
    {
        let ghost all = self@.entities;
        let ghost mut states: Seq<AppState> = seq![*state];
        let mut i: usize = 0;
        while i < self.entities.len()
            invariant
                self.last_id == old(self)@.last_id,
                i <= all.len(),
                self@.entities.len() == all.len(),
                states.len() == i + 1,
                states[0] == *old(state),
                states[i as int] == *state,
                forall|j: int|
                    0 <= j < i ==> (#[trigger] all[j]).updated(dt, states[j], self@.entities[j], states[j + 1]),
                forall|j: int| i <= j < all.len() ==> self@.entities[j] == all[j],
            decreases all.len() - i,
        {
            self.entities[i].update(dt, state);
            proof {
                states = states.push(*state);
            }
            i += 1;
        }
        proof {
            assert(passed_on(all, dt, self@.entities, states));
            assert forall|j: int| 0 <= j < all.len() implies (#[trigger] self@.entities[j]).id == all[j].id by {
                assert(all[j].updated(dt, states[j], self@.entities[j], states[j + 1]));
            }
        }
    }

    /// Draws a frame. Every entity that shows something must have the name
    /// of a shader that the context's asset table holds. First the lights
    /// are gathered, from the entities as they stand, and put into the
    /// context for the whole frame. Then each
    /// entity that shows something is drawn, in the order in which they
    /// came, in that one context; `tweens` holds the samples for them in
    /// the same order. The draw calls come back in that order too.
    pub fn draw(&mut self, ctx: &mut DrawableContext, tweens: &Vec<Tweens>) -> (calls: Vec<DrawCall>)
        requires
            forall|i: int|
                0 <= i < old(self)@.entities.len() && (#[trigger] old(self)@.entities[i]).spec_is_renderable()
                    ==> old(self)@.entities[i].drawable(old(ctx)),
        ensures
            final(self)@.last_id == old(self)@.last_id,
            final(self)@.entities.len() == old(self)@.entities.len(),
            forall|i: int|
                0 <= i < old(self)@.entities.len() ==> #[trigger] final(self)@.entities[i] == framed(
                    old(self)@.entities[i],
                    tweens_for(tweens@, shown_before(old(self)@.entities, i) as int),
                ),
            final(ctx).assets == old(ctx).assets,
            final(ctx).lights is Some,
            final(ctx).lights->0@ == lights_of(old(self)@.entities),
            calls@.len() == shown_before(old(self)@.entities, old(self)@.entities.len() as int),
            forall|i: int|
                0 <= i < old(self)@.entities.len() && (#[trigger] old(self)@.entities[i]).spec_is_renderable()
                    ==> final(self)@.entities[i].renderable->0.mesh.draws(
                    &final(self)@.entities[i].renderable->0.context(*final(ctx)),
                    &calls@[shown_before(old(self)@.entities, i) as int],
                ),
            old(self).wf() ==> final(self).wf(),
    {
        let ghost all = self@.entities;
        let lights = self.get_lights();
        proof {
            lemma_lights_placed(all);
        }
        ctx.lights = Some(lights);
        let ghost gathered = ctx.lights;
        let mut calls: Vec<DrawCall> = Vec::new();
        let mut i: usize = 0;
        while i < self.entities.len()
            invariant
                self.last_id == old(self)@.last_id,
                i <= all.len(),
                self@.entities.len() == all.len(),
                forall|j: int|
                    0 <= j < all.len() && (#[trigger] all[j]).spec_is_renderable() ==> all[j].drawable(old(ctx)),
                ctx.assets == old(ctx).assets,
                forall|j: int|
                    0 <= j < i ==> #[trigger] self@.entities[j] == framed(
                        all[j],
                        tweens_for(tweens@, shown_before(all, j) as int),
                    ),
                forall|j: int| i <= j < all.len() ==> #[trigger] self@.entities[j] == all[j].lit(),
                ctx.lights == gathered,
                gathered is Some,
                gathered->0@ == lights_of(all),
                ctx.lights_placed(),
                calls@.len() == shown_before(all, i as int),
                forall|j: int|
                    0 <= j < i && (#[trigger] all[j]).spec_is_renderable()
                        ==> self@.entities[j].renderable->0.mesh.draws(
                        &self@.entities[j].renderable->0.context(*ctx),
                        &calls@[shown_before(all, j) as int],
                    ),
            decreases all.len() - i,
        {
            let ghost k = shown_before(all, i as int);
            proof {
                lemma_shown_before_grows(all, i as int);
            }
            if self.entities[i].is_renderable() {
                let at = calls.len();
                let sample = if at < tweens.len() {
                    tweens[at]
                } else {
                    Tweens { rotation: None, position: None }
                };
                let call = self.entities[i].draw(ctx, sample);
                calls.push(call);
                proof {
                    assert forall|j: int| 0 <= j < i && (#[trigger] all[j]).spec_is_renderable() implies shown_before(
                        all,
                        j,
                    ) < k by {
                        lemma_shown_before_counts(all, j, i as int);
                    }
                }
            }
            i += 1;
        }
        calls
    }
}

/// Every light that the entities give is placed.
proof fn lemma_lights_placed(entities: Seq<Entity>)
    ensures
        forall|i: int| 0 <= i < lights_of(entities).len() ==> (#[trigger] lights_of(entities)[i]).position is Some,
{
    let lit = entities.filter(|e: Entity| e.spec_is_light_source());
    assert forall|i: int| 0 <= i < lights_of(entities).len() implies (#[trigger] lights_of(
        entities,
    )[i]).position is Some by {
        assert(lights_of(entities)[i] == lit[i].light()->0);
        entities.lemma_filter_pred(|e: Entity| e.spec_is_light_source(), i);
    }
}

/// The count of entities shown does not fall along the sequence.
proof fn lemma_shown_before_grows(entities: Seq<Entity>, n: int)
    requires
        0 <= n,
    ensures
        shown_before(entities, n + 1) == shown_before(entities, n) + if entities[n].spec_is_renderable() {
            1nat
        } else {
            0nat
        },
{
}

/// An entity that shows something is counted before every later place.
proof fn lemma_shown_before_counts(entities: Seq<Entity>, j: int, n: int)
    requires
        0 <= j < n,
        entities[j].spec_is_renderable(),
    ensures
        shown_before(entities, j) < shown_before(entities, n),
    decreases n - j,
{
    if j + 1 < n {
        lemma_shown_before_counts(entities, j, n - 1);
    }
}

/// Taking entities out leaves the ids of the others as they were: within
/// the bound and growing.
proof fn lemma_without_keeps_order(entities: Seq<Entity>, id: u32, last_id: u32)
    requires
        forall|i: int| 0 <= i < entities.len() ==> 1 <= (#[trigger] entities[i]).id <= last_id,
        forall|i: int, j: int| 0 <= i < j < entities.len() ==> entities[i].id < entities[j].id,
    ensures
        forall|i: int|
            0 <= i < without(entities, id).len() ==> 1 <= (#[trigger] without(entities, id)[i]).id <= last_id,
        forall|i: int, j: int|
            0 <= i < j < without(entities, id).len() ==> without(entities, id)[i].id < without(
                entities,
                id,
            )[j].id,
        forall|i: int|
            0 <= i < without(entities, id).len() ==> (#[trigger] without(entities, id)[i]).id != id,
        entities.len() > 0 && without(entities, id).len() > 0 ==> without(entities, id).last().id
            <= entities.last().id,
    decreases entities.len(),
{
    reveal(Seq::filter);
    if entities.len() > 0 {
        let front = entities.drop_last();
        lemma_without_keeps_order(front, id, last_id);
        let kept = without(front, id);
        if front.len() > 0 && kept.len() > 0 {
            assert(kept.last().id <= front.last().id);
            assert(front.last() == entities[entities.len() - 2]);
        }
    }
}

/// What can be done to the entities of a buffer from outside.
pub enum Step {
    /// An entity is taken in.
    Add(Entity),
    /// The entities with an id are taken out.
    Remove(u32),
}

/// What a buffer holds: the id given last, and the entities in their
/// order.
pub struct Scene {
    pub last_id: u32,
    pub entities: Seq<Entity>,
}

impl Scene {
    /// Whether the ids are as a buffer gives them: from 1 to the id given
    /// last, and growing along the entities.
    pub open spec fn wf(self) -> bool {
        &&& forall|i: int| 0 <= i < self.entities.len() ==> 1 <= (#[trigger] self.entities[i]).id <= self.last_id
        &&& forall|i: int, j: int|
            0 <= i < j < self.entities.len() ==> self.entities[i].id < self.entities[j].id
    }

    /// The scene after one step, as [`EntityBuffer::add`] and
    /// [`EntityBuffer::remove`] take it.
    pub open spec fn after(self, step: Step) -> Scene {
        match step {
            Step::Add(entity) => Scene {
                last_id: (self.last_id + 1) as u32,
                entities: self.entities.push(Entity { id: (self.last_id + 1) as u32, ..entity }),
            },
            Step::Remove(id) => Scene { last_id: self.last_id, entities: without(self.entities, id) },
        }
    }

    /// Whether the steps can be taken: no id asked for lies beyond the
    /// greatest number there is.
    pub open spec fn admits(self, steps: Seq<Step>) -> bool
        decreases steps.len(),
    {
        if steps.len() == 0 {
            true
        } else {
            &&& steps[0] is Add ==> self.last_id < u32::MAX
            &&& self.after(steps[0]).admits(steps.drop_first())
        }
    }

    /// The scene after the steps, taken in order.
    pub open spec fn run(self, steps: Seq<Step>) -> Scene
        decreases steps.len(),
    {
        if steps.len() == 0 {
            self
        } else {
            self.after(steps[0]).run(steps.drop_first())
        }
    }
}

/// After the entities with an id are taken out, none has that id.
pub proof fn removed_is_gone(entities: Seq<Entity>, id: u32)
    ensures
        !holds(without(entities, id), id),
{
    let rest = without(entities, id);
    assert forall|at: int| 0 <= at < rest.len() implies (#[trigger] rest[at]).id != id by {
        entities.lemma_filter_pred(|e: Entity| e.id != id, at);
    }
}

/// A step keeps the ids in order, and it does not lower the id given
/// last.
pub proof fn step_keeps_order(scene: Scene, step: Step)
    requires
        scene.wf(),
        step is Add ==> scene.last_id < u32::MAX,
    ensures
        scene.after(step).wf(),
        scene.after(step).last_id >= scene.last_id,
{
    match step {
        Step::Add(entity) => {},
        Step::Remove(id) => {
            lemma_without_keeps_order(scene.entities, id, scene.last_id);
        },
    }
}

/// No id is given twice: an id that the buffer has given, and that no
/// entity has any more, stays without an entity whatever is taken in or
/// out later.
pub proof fn ids_are_not_reused(scene: Scene, steps: Seq<Step>, id: u32)
    requires
        scene.wf(),
        scene.admits(steps),
        id <= scene.last_id,
        !holds(scene.entities, id),
    ensures
        scene.run(steps).wf(),
        !holds(scene.run(steps).entities, id),
    decreases steps.len(),
{
    if steps.len() > 0 {
        let next = scene.after(steps[0]);
        step_keeps_order(scene, steps[0]);
        match steps[0] {
            Step::Add(entity) => {
                assert forall|at: int| 0 <= at < next.entities.len() implies (#[trigger] next.entities[at]).id
                    != id by {
                    if at < scene.entities.len() {
                        assert(scene.entities[at].id != id);
                    }
                }
            },
            Step::Remove(other) => {
                let rest = without(scene.entities, other);
                assert forall|at: int| 0 <= at < rest.len() implies (#[trigger] rest[at]).id != id by {
                    assert(rest.contains(rest[at]));
                    scene.entities.lemma_filter_contains_rev(|e: Entity| e.id != other, rest[at]);
                    let from = choose|from: int| 0 <= from < scene.entities.len() && scene.entities[from] == rest[at];
                    assert(scene.entities[from].id != id);
                }
            },
        }
        ids_are_not_reused(next, steps.drop_first(), id);
    }
}

/// The ids start at 1 and grow by one: the entity taken in as number `n`
/// by a new buffer, with nothing taken out, has the id `n`.
pub proof fn ids_count_up(scene: Scene, entity: Entity)
    requires
        scene.wf(),
        scene.last_id == scene.entities.len(),
        scene.last_id < u32::MAX,
    ensures
        scene.after(Step::Add(entity)).entities.last().id == scene.entities.len() + 1,
        scene.after(Step::Add(entity)).last_id == scene.after(Step::Add(entity)).entities.len(),
        scene.entities.len() == 0 ==> scene.after(Step::Add(entity)).entities.last().id == 1,
{
}

} // verus!
