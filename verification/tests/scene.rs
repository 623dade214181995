use cube_renderer::behaviour::{follow_rotations, Behaviour};
use cube_renderer::{
    AppState, DrawableContext, Easing, Entity, EntityBuffer, EntityState, Light, Material, Mesh, Message,
    MessagePool, Renderable, Scalar, Serializable, Transform, Transition, TweenSample, Tweens, Uniform,
    UniformValue, Vec3, Vec4,
};

fn s(x: f32) -> Scalar {
    Scalar::from_bits(x.to_bits())
}

fn f(x: Scalar) -> f32 {
    f32::from_bits(x.to_bits())
}

fn v3(x: f32, y: f32, z: f32) -> Vec3 {
    Vec3::new(s(x), s(y), s(z))
}

fn v4(x: f32, y: f32, z: f32, w: f32) -> Vec4 {
    Vec4::new(s(x), s(y), s(z), s(w))
}

fn ease(function: Easing, t: f32) -> f32 {
    match function {
        Easing::Linear => t,
        Easing::EaseIn => t * t,
        Easing::EaseOut => 1.0 - (1.0 - t) * (1.0 - t),
        Easing::EaseInOut => {
            if t < 0.5 {
                ease(Easing::EaseIn, t * 2.0) / 2.0
            } else {
                ease(Easing::EaseOut, t * 2.0 - 1.0) / 2.0 + 0.5
            }
        }
    }
}

fn evaluate(transition: &Transition<Vec3>, dt: f32) -> TweenSample<Vec3> {
    let elapsed = f(transition.elapsed) + dt;
    let t = elapsed / f(transition.duration);
    let time = if t > 1.0 {
        1.0
    } else if t < 0.0 {
        0.0
    } else {
        t
    };
    let c = ease(transition.function, time);
    let along = |a: Scalar, b: Scalar| s(f(a) + c * (f(b) - f(a)));
    TweenSample {
        elapsed: s(elapsed),
        value: Vec3::new(
            along(transition.start.x, transition.end.x),
            along(transition.start.y, transition.end.y),
            along(transition.start.z, transition.end.z),
        ),
    }
}

fn tweens(renderable: &Renderable, dt: f32) -> Tweens {
    Tweens {
        rotation: renderable.rotation_transition.as_ref().map(|t| evaluate(t, dt)),
        position: renderable.position_transition.as_ref().map(|t| evaluate(t, dt)),
    }
}

fn cube(shader: Option<&str>) -> Renderable {
    let vertices = vec![s(0.5); 36 * 6];
    let mesh = Mesh::new(7, 8, &vertices);
    let mut renderable = Renderable::new(mesh, Material::new(v4(0.4, 0.4, 0.4, 1.0), s(32.0)));
    renderable.shader = shader.map(|name| name.to_string());
    renderable
}

fn lamp(position: Vec3) -> Entity {
    let mut entity = Entity::new(position);
    let mut renderable = cube(Some("debug"));
    renderable.set_light(Some(Light::new(v4(1.0, 0.0, 1.0, 1.0))));
    entity.add_renderable(renderable);
    entity
}

fn names(uniforms: &[Uniform]) -> Vec<String> {
    uniforms.iter().map(|u| u.name.clone()).collect()
}

#[test]
fn ids_start_at_one_and_grow() {
    let mut buffer = EntityBuffer::new();
    for expected in 1..=5u32 {
        buffer.add(Entity::new(v3(0.0, 0.0, 0.0)));
        assert_eq!(buffer.last_id(), expected);
        assert_eq!(buffer.entities().last().unwrap().id, expected);
    }
    let ids: Vec<u32> = buffer.entities().iter().map(|e| e.id).collect();
    assert_eq!(ids, vec![1, 2, 3, 4, 5]);
}

#[test]
fn removed_id_is_not_found_and_not_given_again() {
    let mut buffer = EntityBuffer::new();
    buffer.add(Entity::new(v3(1.0, 0.0, 0.0)));
    buffer.add(Entity::new(v3(2.0, 0.0, 0.0)));
    buffer.add(Entity::new(v3(3.0, 0.0, 0.0)));
    buffer.remove(2);
    assert!(buffer.get(2).is_none());
    assert!(buffer.get_mut(2).is_none());
    assert_eq!(buffer.entities().len(), 2);
    assert_eq!(buffer.get(1).unwrap().state.position, v3(1.0, 0.0, 0.0));
    assert_eq!(buffer.get(3).unwrap().state.position, v3(3.0, 0.0, 0.0));
    buffer.add(Entity::new(v3(4.0, 0.0, 0.0)));
    assert_eq!(buffer.entities().last().unwrap().id, 4);
    buffer.remove(4);
    buffer.add(Entity::new(v3(5.0, 0.0, 0.0)));
    assert_eq!(buffer.entities().last().unwrap().id, 5);
    assert!(buffer.get(4).is_none());
}

#[test]
fn remove_of_an_absent_id_changes_nothing() {
    let mut buffer = EntityBuffer::new();
    buffer.add(Entity::new(v3(1.0, 0.0, 0.0)));
    buffer.remove(9);
    assert_eq!(buffer.entities().len(), 1);
    assert_eq!(buffer.last_id(), 1);
    assert!(buffer.get(9).is_none());
    assert!(buffer.get(0).is_none());
}

#[test]
fn get_mut_changes_the_entity_in_the_buffer() {
    let mut buffer = EntityBuffer::new();
    buffer.add(Entity::new(v3(1.0, 0.0, 0.0)));
    buffer.add(Entity::new(v3(2.0, 0.0, 0.0)));
    buffer.get_mut(2).unwrap().state.set_position(v3(9.0, 9.0, 9.0));
    assert_eq!(buffer.get(2).unwrap().state.get_position(), v3(9.0, 9.0, 9.0));
    assert_eq!(buffer.get(1).unwrap().state.get_position(), v3(1.0, 0.0, 0.0));
}

#[test]
fn renderables_are_those_that_show_something_in_order() {
    let mut buffer = EntityBuffer::new();
    let a = Entity::new(v3(0.0, 0.0, 0.0));
    let mut b = Entity::new(v3(1.0, 0.0, 0.0));
    b.add_renderable(cube(Some("debug")));
    buffer.add(a);
    buffer.add(b);
    let shown = buffer.get_renderables();
    assert_eq!(shown.len(), 1);
    assert_eq!(shown[0].id, 2);
    assert!(shown[0].is_renderable());
}

#[test]
fn renderables_can_be_changed_in_place() {
    let mut buffer = EntityBuffer::new();
    buffer.add(Entity::new(v3(0.0, 0.0, 0.0)));
    for i in 0..3 {
        let mut entity = Entity::new(v3(i as f32, 0.0, 0.0));
        entity.add_renderable(cube(Some("debug")));
        buffer.add(entity);
    }
    {
        let mut shown = buffer.get_renderables_mut();
        let ids: Vec<u32> = shown.iter().map(|e| e.id).collect();
        assert_eq!(ids, vec![2, 3, 4]);
        shown[1].state.set_position(v3(7.0, 7.0, 7.0));
        shown[2].renderable.as_mut().unwrap().shader = None;
    }
    assert_eq!(buffer.entities().len(), 4);
    assert_eq!(buffer.get(3).unwrap().state.get_position(), v3(7.0, 7.0, 7.0));
    assert_eq!(buffer.get(2).unwrap().state.get_position(), v3(0.0, 0.0, 0.0));
    assert!(buffer.get(4).unwrap().renderable.as_ref().unwrap().shader.is_none());
    assert!(buffer.get(2).unwrap().renderable.as_ref().unwrap().shader.is_some());
}

#[test]
fn renderables_keep_the_order_of_arrival() {
    let mut buffer = EntityBuffer::new();
    for i in 0..6 {
        let mut entity = Entity::new(v3(i as f32, 0.0, 0.0));
        if i % 2 == 1 {
            entity.add_renderable(cube(Some("debug")));
        }
        buffer.add(entity);
    }
    let ids: Vec<u32> = buffer.get_renderables().iter().map(|e| e.id).collect();
    assert_eq!(ids, vec![2, 4, 6]);
    assert!(EntityBuffer::new().get_renderables().is_empty());
}

#[test]
fn lights_stand_where_their_entities_are() {
    let mut buffer = EntityBuffer::new();
    buffer.add(lamp(v3(-3.0, 2.0, -5.0)));
    let mut plain = Entity::new(v3(0.0, 0.0, 0.0));
    plain.add_renderable(cube(Some("debug")));
    buffer.add(plain);
    buffer.add(lamp(v3(3.0, 2.0, -5.0)));
    let lights = buffer.get_lights();
    assert_eq!(lights.len(), 2);
    assert_eq!(lights[0].position, Some(v3(-3.0, 2.0, -5.0)));
    assert_eq!(lights[1].position, Some(v3(3.0, 2.0, -5.0)));
    assert_eq!(lights[0].ambient, v4(1.0, 0.0, 1.0, 1.0));
}

#[test]
fn lights_do_not_wait_for_tweens() {
    let mut buffer = EntityBuffer::new();
    let mut entity = lamp(v3(-3.0, 2.0, -5.0));
    let renderable = entity.renderable.as_mut().unwrap();
    renderable.smooth_translate(v3(10.0, 10.0, 10.0), s(300.0), Easing::Linear);
    renderable.smooth_rotate(v3(0.0, 90.0, 0.0), s(300.0), Easing::EaseInOut);
    buffer.add(entity);
    let lights = buffer.get_lights();
    assert_eq!(lights.len(), 1);
    assert_eq!(lights[0].position, Some(v3(-3.0, 2.0, -5.0)));
    buffer.get_mut(1).unwrap().state.set_position(v3(1.0, 1.0, 1.0));
    assert_eq!(buffer.get_lights()[0].position, Some(v3(1.0, 1.0, 1.0)));
}

#[test]
fn light_is_made_without_a_position() {
    let mut light = Light::new(v4(1.0, 1.0, 1.0, 1.0));
    assert_eq!(light.position, None);
    assert_eq!(light.diffuse, light.ambient);
    let placed = *light.with_position(v3(1.0, 2.0, 3.0));
    assert_eq!(placed.position, Some(v3(1.0, 2.0, 3.0)));
    assert_eq!(light.position, Some(v3(1.0, 2.0, 3.0)));
    let other = Light::new_with_colors(v4(1.0, 0.0, 0.0, 1.0), v4(0.0, 1.0, 0.0, 1.0), v4(0.0, 0.0, 1.0, 1.0));
    assert_eq!(other.specular, v4(0.0, 0.0, 1.0, 1.0));
    assert_eq!(other.position, None);
}

#[test]
fn entity_without_light_gives_none() {
    let mut bare = Entity::new(v3(0.0, 0.0, 0.0));
    assert!(!bare.is_light_source());
    assert_eq!(bare.get_light(), None);
    let mut shown = Entity::new(v3(0.0, 0.0, 0.0));
    shown.add_renderable(cube(None));
    assert!(!shown.is_light_source());
    assert_eq!(shown.get_light(), None);
    let mut lit = lamp(v3(1.0, 2.0, 3.0));
    assert!(lit.is_light_source());
    assert_eq!(lit.get_light().unwrap().position, Some(v3(1.0, 2.0, 3.0)));
}

#[test]
fn tween_reaches_half_way_and_then_its_end() {
    let mut renderable = cube(Some("debug"));
    renderable.smooth_rotate(v3(0.0, 90.0, 0.0), s(300.0), Easing::EaseInOut);
    assert_eq!(renderable.rotation_target(), v3(0.0, 90.0, 0.0));
    let step = tweens(&renderable, 150.0);
    renderable.apply_transitions(step);
    assert_eq!(f(renderable.rotation.y), 45.0);
    assert_eq!(f(renderable.rotation.x), 0.0);
    assert!(renderable.rotation_transition.is_some());
    assert_eq!(f(renderable.rotation_transition.unwrap().elapsed), 150.0);
    let step = tweens(&renderable, 300.0);
    renderable.apply_transitions(step);
    assert_eq!(renderable.rotation, v3(0.0, 90.0, 0.0));
    assert!(renderable.rotation_transition.is_none());
}

#[test]
fn split_steps_end_where_one_step_ends() {
    let start = v3(0.1, 0.2, 0.3);
    let end = v3(0.7, -4.0, 11.0);
    let mut whole = cube(None);
    whole.translate(start);
    whole.smooth_translate(end, s(100.0), Easing::EaseOut);
    let step = tweens(&whole, 100.0);
    whole.apply_transitions(step);
    let mut split = cube(None);
    split.translate(start);
    split.smooth_translate(end, s(100.0), Easing::EaseOut);
    let step = tweens(&split, 37.5);
    split.apply_transitions(step);
    assert!(split.position_transition.is_some());
    let step = tweens(&split, 62.5);
    split.apply_transitions(step);
    assert_eq!(whole.position, end);
    assert_eq!(split.position, end);
    assert!(whole.position_transition.is_none());
    assert!(split.position_transition.is_none());
}

#[test]
fn turn_to_the_same_target_leaves_the_tween_to_run() {
    let mut renderable = cube(Some("debug"));
    renderable.smooth_rotate(v3(0.0, 90.0, 0.0), s(300.0), Easing::EaseInOut);
    let step = tweens(&renderable, 150.0);
    renderable.apply_transitions(step);
    let under_way = renderable.clone();
    assert_eq!(f(under_way.rotation_transition.unwrap().elapsed), 150.0);
    renderable.smooth_rotate(v3(0.0, 90.0, 0.0), s(300.0), Easing::EaseInOut);
    assert_eq!(renderable, under_way);
    renderable.smooth_rotate(v3(-0.0, 90.0, 0.0), s(50.0), Easing::Linear);
    assert_eq!(renderable, under_way);
    renderable.smooth_rotate(v3(0.0, 180.0, 0.0), s(50.0), Easing::Linear);
    let restarted = renderable.rotation_transition.unwrap();
    assert_eq!(restarted.start, under_way.rotation);
    assert_eq!(f(restarted.start.y), 45.0);
    assert_eq!(restarted.end, v3(0.0, 180.0, 0.0));
    assert_eq!(restarted.elapsed, s(0.0));
    assert_eq!(restarted.duration, s(50.0));
    assert_eq!(restarted.function, Easing::Linear);
    assert_eq!(renderable.rotation, under_way.rotation);
}

#[test]
fn turn_to_the_rotation_at_hand_starts_no_tween() {
    let mut renderable = cube(None);
    renderable.rotate(v3(1.0, 2.0, 3.0));
    renderable.smooth_rotate(v3(1.0, 2.0, 3.0), s(100.0), Easing::EaseIn);
    assert!(renderable.rotation_transition.is_none());
    assert_eq!(renderable.rotation, v3(1.0, 2.0, 3.0));
    renderable.smooth_rotate(v3(f32::NAN, 2.0, 3.0), s(100.0), Easing::EaseIn);
    assert!(renderable.rotation_transition.is_some());
    renderable.smooth_rotate(v3(f32::NAN, 2.0, 3.0), s(100.0), Easing::EaseIn);
    assert_eq!(renderable.rotation_transition.unwrap().elapsed, s(0.0));
}

#[test]
fn asset_table_is_asked_by_name() {
    let mut ctx = DrawableContext::new();
    assert!(ctx.assets.is_empty());
    assert!(!ctx.has_shader(&"debug".to_string()));
    ctx.assets = vec!["debug".to_string(), "flat".to_string()];
    assert!(ctx.has_shader(&"debug".to_string()));
    assert!(ctx.has_shader(&"flat".to_string()));
    assert!(!ctx.has_shader(&"Debug".to_string()));
    assert!(!ctx.has_shader(&String::new()));
}

#[test]
fn tween_is_finished_once_its_time_has_run() {
    let mut transition = Transition::new(v3(0.0, 0.0, 0.0), v3(1.0, 1.0, 1.0), s(100.0), Easing::Linear);
    assert_eq!(transition.elapsed, s(0.0));
    assert!(!transition.is_finished());
    let value = transition.update(TweenSample { elapsed: s(99.5), value: v3(0.5, 0.5, 0.5) });
    assert_eq!(value, v3(0.5, 0.5, 0.5));
    assert!(!transition.is_finished());
    transition.update(TweenSample { elapsed: s(100.0), value: v3(1.0, 1.0, 1.0) });
    assert!(transition.is_finished());
    transition.update(TweenSample { elapsed: s(1.0e9), value: v3(1.0, 1.0, 1.0) });
    assert!(transition.is_finished());
    transition.update(TweenSample { elapsed: s(f32::NAN), value: v3(1.0, 1.0, 1.0) });
    assert!(!transition.is_finished());
}

#[test]
fn samples_without_tweens_change_nothing() {
    let mut renderable = cube(None);
    renderable.rotate(v3(1.0, 2.0, 3.0));
    let sample = TweenSample { elapsed: s(5.0), value: v3(9.0, 9.0, 9.0) };
    renderable.apply_transitions(Tweens { rotation: Some(sample), position: Some(sample) });
    assert_eq!(renderable.rotation, v3(1.0, 2.0, 3.0));
    assert_eq!(renderable.position, v3(0.0, 0.0, 0.0));
    renderable.smooth_rotate(v3(0.0, 90.0, 0.0), s(300.0), Easing::Linear);
    renderable.apply_transitions(Tweens { rotation: None, position: None });
    assert_eq!(renderable.rotation, v3(1.0, 2.0, 3.0));
    assert_eq!(renderable.rotation_transition.unwrap().elapsed, s(0.0));
}

#[test]
fn sync_moves_at_once_and_turns_by_a_tween() {
    let mut state = EntityState::new(v3(1.0, 2.0, 3.0), v3(0.0, 90.0, 0.0));
    let mut renderable = cube(None);
    state.sync_with_renderable(&mut renderable);
    assert!(!state.is_dirty);
    assert_eq!(renderable.position, v3(1.0, 2.0, 3.0));
    assert_eq!(renderable.rotation, v3(0.0, 0.0, 0.0));
    let transition = renderable.rotation_transition.unwrap();
    assert_eq!(transition.start, v3(0.0, 0.0, 0.0));
    assert_eq!(transition.end, v3(0.0, 90.0, 0.0));
    assert_eq!(f(transition.duration), 100.0);
    assert_eq!(transition.elapsed, s(0.0));
    assert_eq!(transition.function, Easing::EaseInOut);
}

#[test]
fn sync_does_not_restart_a_tween_to_the_same_target() {
    let mut state = EntityState::new(v3(0.0, 0.0, 0.0), v3(0.0, 90.0, 0.0));
    let mut renderable = cube(None);
    state.sync_with_renderable(&mut renderable);
    let step = tweens(&renderable, 40.0);
    renderable.apply_transitions(step);
    let under_way = renderable.rotation_transition;
    state.set_position(v3(5.0, 5.0, 5.0));
    state.sync_with_renderable(&mut renderable);
    assert_eq!(renderable.rotation_transition, under_way);
    assert_eq!(renderable.position, v3(5.0, 5.0, 5.0));
    state.set_rotation(v3(0.0, 180.0, 0.0));
    state.sync_with_renderable(&mut renderable);
    let restarted = renderable.rotation_transition.unwrap();
    assert_eq!(restarted.start, renderable.rotation);
    assert_eq!(restarted.end, v3(0.0, 180.0, 0.0));
    assert_eq!(restarted.elapsed, s(0.0));
}

#[test]
fn sync_of_a_clean_state_does_nothing() {
    let mut state = EntityState::new(v3(1.0, 1.0, 1.0), v3(0.0, 0.0, 0.0));
    let mut renderable = cube(None);
    state.sync_with_renderable(&mut renderable);
    renderable.translate(v3(7.0, 7.0, 7.0));
    state.sync_with_renderable(&mut renderable);
    assert_eq!(renderable.position, v3(7.0, 7.0, 7.0));
    assert!(renderable.rotation_transition.is_none());
}

#[test]
fn sync_takes_the_two_zeros_for_one_rotation() {
    let mut state = EntityState::new(v3(0.0, 0.0, 0.0), v3(-0.0, 0.0, -0.0));
    let mut renderable = cube(None);
    state.sync_with_renderable(&mut renderable);
    assert!(renderable.rotation_transition.is_none());
    let mut state = EntityState::new(v3(0.0, 0.0, 0.0), v3(f32::NAN, 0.0, 0.0));
    state.sync_with_renderable(&mut renderable);
    assert!(renderable.rotation_transition.is_some());
}

#[test]
fn draw_of_a_mesh_sets_uniforms_in_order() {
    let mut ctx = DrawableContext::new();
    ctx.assets = vec!["debug".to_string()];
    ctx.shader = Some("debug".to_string());
    ctx.material = Some(Material::new(v4(0.4, 0.4, 0.4, 1.0), s(32.0)));
    let mut light = Light::new(v4(1.0, 0.0, 1.0, 1.0));
    light.with_position(v3(3.0, 2.0, -5.0));
    ctx.lights = Some(vec![light; 11]);
    ctx.position = v3(1.0, 2.0, 3.0);
    ctx.rotation = v3(0.0, 90.0, 0.0);
    let vertices = vec![s(0.0); 36 * 6];
    let mesh = Mesh::new(3, 4, &vertices);
    assert_eq!(mesh.triangles, 36);
    let call = mesh.draw(&ctx);
    assert_eq!(call.shader.as_deref(), Some("debug"));
    assert_eq!(call.vao, 3);
    assert_eq!(call.triangles, 36);
    assert_eq!(call.uniforms.len(), 4 + 4 + 4 * 11);
    assert_eq!(
        names(&call.uniforms[..12]),
        vec![
            "u_Model",
            "u_View",
            "u_Projection",
            "u_ViewPos",
            "u_Material.ambient",
            "u_Material.diffuse",
            "u_Material.specular",
            "u_Material.shininess",
            "u_Lights[0].position",
            "u_Lights[0].ambient",
            "u_Lights[0].diffuse",
            "u_Lights[0].specular",
        ]
    );
    assert_eq!(call.uniforms[48].name, "u_Lights[10].position");
    assert_eq!(call.uniforms[51].name, "u_Lights[10].specular");
    assert_eq!(
        call.uniforms[0].value,
        UniformValue::Model { position: v3(1.0, 2.0, 3.0), rotation: v3(0.0, 90.0, 0.0) }
    );
    assert_eq!(call.uniforms[3].value, UniformValue::ViewPosition);
    assert_eq!(call.uniforms[7].value, UniformValue::Float(s(32.0)));
    assert_eq!(call.uniforms[8].value, UniformValue::Vec3(v3(3.0, 2.0, -5.0)));
    assert_eq!(call.uniforms[9].value, UniformValue::Vec4(v4(1.0, 0.0, 1.0, 1.0)));
}

#[test]
fn draw_without_shader_sets_nothing() {
    let ctx = DrawableContext::new();
    let mesh = Mesh::new(1, 2, &vec![s(0.0); 13]);
    assert_eq!(mesh.triangles, 2);
    let call = mesh.draw(&ctx);
    assert_eq!(call.shader, None);
    assert!(call.uniforms.is_empty());
    assert_eq!(call.vao, 1);
    assert_eq!(call.triangles, 2);
}

#[test]
fn mesh_lays_out_position_then_normal() {
    let mesh = Mesh::new(1, 2, &Vec::new());
    assert_eq!(mesh.triangles, 0);
    let attributes = mesh.load_attributes();
    assert_eq!(attributes.len(), 2);
    assert_eq!(attributes[0].name, "a_Position");
    assert_eq!((attributes[0].index, attributes[0].size, attributes[0].stride, attributes[0].offset), (0, 3, 24, 0));
    assert_eq!(attributes[1].name, "a_Normal");
    assert_eq!((attributes[1].index, attributes[1].size, attributes[1].stride, attributes[1].offset), (1, 3, 24, 12));
    let renderable = cube(Some("debug"));
    assert_eq!(renderable.load_attributes(), attributes);
    assert_eq!(renderable.get_shader(), "debug");
}

#[test]
fn frame_gathers_lights_first_and_draws_in_order() {
    let mut buffer = EntityBuffer::new();
    buffer.add(lamp(v3(-3.0, 2.0, -5.0)));
    buffer.add(Entity::new(v3(0.0, 0.0, 0.0)));
    let mut turning = lamp(v3(3.0, 2.0, -5.0));
    turning.state.set_rotation(v3(0.0, 100.0, 0.0));
    buffer.add(turning);
    let mut ctx = DrawableContext::new();
    ctx.assets = vec!["other".to_string(), "debug".to_string()];
    let none = Tweens { rotation: None, position: None };
    let first = Tweens {
        rotation: None,
        position: Some(TweenSample { elapsed: s(1.0), value: v3(8.0, 8.0, 8.0) }),
    };
    let second = Tweens {
        rotation: Some(TweenSample { elapsed: s(50.0), value: v3(0.0, 50.0, 0.0) }),
        position: None,
    };
    let calls = buffer.draw(&mut ctx, &vec![first, second, none]);
    assert_eq!(calls.len(), 2);
    let lights = ctx.lights.clone().unwrap();
    assert_eq!(lights.len(), 2);
    assert_eq!(lights[0].position, Some(v3(-3.0, 2.0, -5.0)));
    assert_eq!(lights[1].position, Some(v3(3.0, 2.0, -5.0)));
    assert_eq!(
        calls[0].uniforms[0].value,
        UniformValue::Model { position: v3(-3.0, 2.0, -5.0), rotation: v3(0.0, 0.0, 0.0) }
    );
    assert_eq!(
        calls[1].uniforms[0].value,
        UniformValue::Model { position: v3(3.0, 2.0, -5.0), rotation: v3(0.0, 50.0, 0.0) }
    );
    assert_eq!(calls[1].uniforms.len(), 4 + 4 + 8);
    assert_eq!(calls[1].uniforms[12].name, "u_Lights[1].position");
    assert_eq!(calls[1].uniforms[12].value, UniformValue::Vec3(v3(3.0, 2.0, -5.0)));
    assert_eq!(ctx.position, v3(3.0, 2.0, -5.0));
    assert_eq!(ctx.rotation, v3(0.0, 50.0, 0.0));
    assert_eq!(ctx.shader.as_deref(), Some("debug"));
    assert_eq!(ctx.assets, vec!["other".to_string(), "debug".to_string()]);
    let third = buffer.get(3).unwrap();
    assert!(!third.state.is_dirty);
    assert_eq!(f(third.renderable.as_ref().unwrap().rotation_transition.unwrap().elapsed), 50.0);
    assert!(buffer.get(2).unwrap().state.is_dirty);
    let calls = buffer.draw(&mut ctx, &Vec::new());
    assert_eq!(calls.len(), 2);
    assert_eq!(
        calls[1].uniforms[0].value,
        UniformValue::Model { position: v3(3.0, 2.0, -5.0), rotation: v3(0.0, 50.0, 0.0) }
    );
}

#[test]
fn frame_ends_a_tween_at_its_end() {
    let mut buffer = EntityBuffer::new();
    let mut entity = lamp(v3(0.0, 0.0, 0.0));
    entity.state.set_rotation(v3(0.0, 90.0, 0.0));
    buffer.add(entity);
    let mut ctx = DrawableContext::new();
    ctx.assets = vec!["debug".to_string()];
    let step = Tweens {
        rotation: Some(TweenSample { elapsed: s(100.0), value: v3(0.0, 89.99, 0.0) }),
        position: None,
    };
    let calls = buffer.draw(&mut ctx, &vec![step]);
    assert_eq!(
        calls[0].uniforms[0].value,
        UniformValue::Model { position: v3(0.0, 0.0, 0.0), rotation: v3(0.0, 90.0, 0.0) }
    );
    let renderable = buffer.get(1).unwrap().renderable.as_ref().unwrap();
    assert!(renderable.rotation_transition.is_none());
    assert_eq!(renderable.rotation, v3(0.0, 90.0, 0.0));
}

struct Lift;

impl Behaviour for Lift {
    fn update(&mut self, dt: Scalar, entity: &mut EntityState, _state: &mut AppState) {
        let position = entity.get_position();
        entity.set_position(Vec3::new(position.x, dt, position.z));
    }
}

#[test]
fn update_lets_each_behaviour_act_on_its_own_entity() {
    let mut buffer = EntityBuffer::new();
    let mut moved = Entity::new(v3(1.0, 0.0, 0.0));
    moved.add_behaviour(Box::new(Lift));
    moved.state.is_dirty = false;
    buffer.add(moved);
    let mut still = Entity::new(v3(2.0, 0.0, 0.0));
    still.state.is_dirty = false;
    buffer.add(still);
    let mut state = AppState::new();
    buffer.update(s(16.0), &mut state);
    assert_eq!(buffer.get(1).unwrap().state.get_position(), v3(1.0, 16.0, 0.0));
    assert!(buffer.get(1).unwrap().state.is_dirty);
    assert_eq!(buffer.get(2).unwrap().state.get_position(), v3(2.0, 0.0, 0.0));
    assert!(!buffer.get(2).unwrap().state.is_dirty);
    assert_eq!(buffer.last_id(), 2);
}

#[test]
fn new_entity_is_unregistered_and_dirty() {
    let mut entity = Entity::new(v3(1.0, 2.0, 3.0));
    assert_eq!(entity.id, 0);
    assert!(!entity.is_renderable());
    assert!(entity.behaviour.is_none());
    assert_eq!(entity.state.get_position(), v3(1.0, 2.0, 3.0));
    assert_eq!(entity.state.get_rotation(), v3(0.0, 0.0, 0.0));
    assert!(entity.state.is_dirty);
    entity.register(12);
    assert_eq!(entity.id, 12);
}

#[test]
fn rotations_of_a_peer_turn_the_entity() {
    let mut state = EntityState::new(v3(1.0, 1.0, 1.0), v3(0.0, 0.0, 0.0));
    state.is_dirty = false;
    follow_rotations(&mut state, &Vec::new());
    assert!(!state.is_dirty);
    let others = vec![
        Message::Handshake("peer".to_string()),
        Message::Sync(Transform::Rotate(v3(9.0, 9.0, 9.0))),
        Message::Transform(Transform::Scale(v3(2.0, 2.0, 2.0))),
        Message::Transform(Transform::Translate(v3(2.0, 2.0, 2.0))),
    ];
    follow_rotations(&mut state, &others);
    assert!(!state.is_dirty);
    assert_eq!(state.get_rotation(), v3(0.0, 0.0, 0.0));
    let messages = vec![
        Message::Transform(Transform::Rotate(v3(0.0, 10.0, 0.0))),
        Message::Transform(Transform::Rotate(v3(0.0, 20.0, 0.0))),
        Message::Transform(Transform::Translate(v3(5.0, 5.0, 5.0))),
    ];
    follow_rotations(&mut state, &messages);
    assert!(state.is_dirty);
    assert_eq!(state.get_rotation(), v3(0.0, 20.0, 0.0));
    assert_eq!(state.get_position(), v3(1.0, 1.0, 1.0));
}

#[test]
fn rotation_sent_by_a_peer_turns_the_entity() {
    let sent = Message::Transform(Transform::Rotate(v3(0.0, 90.0, 0.0)));
    let mut pool = MessagePool::new();
    assert_eq!(pool.deliver(&Message::Handshake("peer".to_string()).to_bytes()), Ok(()));
    assert_eq!(pool.deliver(&Message::Transform(Transform::Translate(v3(1.0, 1.0, 1.0))).to_bytes()), Ok(()));
    assert_eq!(pool.deliver(&sent.to_bytes()), Ok(()));
    let mut state = EntityState::new(v3(0.0, 0.0, 0.0), v3(0.0, 0.0, 0.0));
    state.is_dirty = false;
    follow_rotations(&mut state, &pool.poll());
    assert!(state.is_dirty);
    assert_eq!(state.get_rotation(), v3(0.0, 90.0, 0.0));
    assert_eq!(state.get_position(), v3(0.0, 0.0, 0.0));
}

#[test]
fn material_of_one_colour() {
    let material = Material::new(v4(0.4, 0.4, 0.4, 1.0), s(32.0));
    assert_eq!(material.ambient, v4(0.4, 0.4, 0.4, 1.0));
    assert_eq!(material.diffuse, material.ambient);
    assert_eq!(material.specular, material.ambient);
    assert_eq!(material.shininess, s(32.0));
    let other = Material::new_with_colors(v4(1.0, 0.0, 0.0, 1.0), v4(0.0, 1.0, 0.0, 1.0), v4(0.0, 0.0, 1.0, 1.0), s(8.0));
    let mut uniforms = Vec::new();
    other.apply_to_shader(&mut uniforms);
    assert_eq!(uniforms.len(), 4);
    assert_eq!(uniforms[1].name, "u_Material.diffuse");
    assert_eq!(uniforms[1].value, UniformValue::Vec4(v4(0.0, 1.0, 0.0, 1.0)));
    assert_eq!(uniforms[3].value, UniformValue::Float(s(8.0)));
}
