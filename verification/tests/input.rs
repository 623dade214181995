use cube_renderer::modifiers::{ALT, CTRL, META, SHIFT};
use cube_renderer::shader::{FRAGMENT_SHADER, VERTEX_SHADER};
use cube_renderer::uniform::{decimal_text, light_uniform, named};
use cube_renderer::{
    compile_failure, from_key_code, link_failure, parse_key_event, AppState, Config, Key, Keyboard, Scalar,
    ShaderError, UniformValue, Vec3, Viewport,
};

fn s(x: f32) -> Scalar {
    Scalar::from_bits(x.to_bits())
}

#[test]
fn codes_name_their_keys() {
    assert_eq!(from_key_code("KeyA".to_string()), Key::A);
    assert_eq!(from_key_code("KeyZ".to_string()), Key::Z);
    assert_eq!(from_key_code("Digit0".to_string()), Key::Num0);
    assert_eq!(from_key_code("Digit9".to_string()), Key::Num9);
    assert_eq!(from_key_code("ArrowUp".to_string()), Key::Up);
    assert_eq!(from_key_code("F1".to_string()), Key::F1);
    assert_eq!(from_key_code("F12".to_string()), Key::F12);
    assert_eq!(from_key_code("Numpad7".to_string()), Key::Numpad7);
    assert_eq!(from_key_code("NumpadEqual".to_string()), Key::NumpadEqual);
    assert_eq!(from_key_code("ShiftLeft".to_string()), Key::LeftShift);
    assert_eq!(from_key_code("MetaRight".to_string()), Key::RightSuper);
    assert_eq!(from_key_code("Slash".to_string()), Key::Slash);
    assert_eq!(from_key_code("Escape".to_string()), Key::Escape);
}

#[test]
fn codes_without_a_key_are_kept() {
    assert_eq!(from_key_code("keya".to_string()), Key::Unknown("keya".to_string()));
    assert_eq!(from_key_code("KeyA ".to_string()), Key::Unknown("KeyA ".to_string()));
    assert_eq!(from_key_code(String::new()), Key::Unknown(String::new()));
    assert_eq!(from_key_code("F13".to_string()), Key::Unknown("F13".to_string()));
    assert_eq!(from_key_code("Up".to_string()), Key::Unknown("Up".to_string()));
}

#[test]
fn keys_are_told_apart_by_variant_and_code() {
    assert!(Key::A == Key::A);
    assert!(Key::A != Key::B);
    assert!(Key::Unknown("x".to_string()) == Key::Unknown("x".to_string()));
    assert!(Key::Unknown("x".to_string()) != Key::Unknown("y".to_string()));
    assert!(Key::Unknown("KeyA".to_string()) != Key::A);
    assert!(Key::Slash != Key::Unknown(String::new()));
    assert_eq!(Key::A.index(), 0);
    assert_eq!(Key::Slash.index(), 102);
    assert_eq!(Key::Unknown(String::new()).index(), 103);
}

#[test]
fn key_event_gives_key_and_mask() {
    assert_eq!(parse_key_event("KeyQ".to_string(), false, false, false, false), (Key::Q, 0));
    assert_eq!(parse_key_event("KeyQ".to_string(), true, false, false, false), (Key::Q, SHIFT));
    assert_eq!(parse_key_event("KeyQ".to_string(), false, true, false, false), (Key::Q, CTRL));
    assert_eq!(parse_key_event("KeyQ".to_string(), false, false, true, false), (Key::Q, ALT));
    assert_eq!(parse_key_event("KeyQ".to_string(), false, false, false, true), (Key::Q, META));
    assert_eq!(parse_key_event("Tab".to_string(), true, true, true, true), (Key::Tab, 15));
    assert_eq!(parse_key_event("Tab".to_string(), true, false, true, false), (Key::Tab, 5));
    assert_eq!((SHIFT, CTRL, ALT, META), (1, 2, 4, 8));
}

#[test]
fn key_is_down_with_its_modifiers() {
    let mut keyboard = Keyboard::new();
    assert!(!keyboard.is_down(Key::A, 0, false));
    assert!(keyboard.is_up(Key::A));
    keyboard.on_keydown(Key::A, SHIFT | CTRL);
    assert!(keyboard.is_down(Key::A, 0, false));
    assert!(keyboard.is_down(Key::A, SHIFT, false));
    assert!(keyboard.is_down(Key::A, SHIFT | CTRL, false));
    assert!(!keyboard.is_down(Key::A, ALT, false));
    assert!(!keyboard.is_down(Key::A, SHIFT | ALT, false));
    assert!(keyboard.is_down(Key::A, SHIFT | CTRL, true));
    assert!(!keyboard.is_down(Key::A, SHIFT, true));
    assert!(!keyboard.is_down(Key::A, 0, true));
    assert!(!keyboard.is_up(Key::A));
    assert!(keyboard.is_up(Key::B));
    keyboard.on_keyup(Key::A);
    assert!(keyboard.is_up(Key::A));
    assert!(!keyboard.is_down(Key::A, 0, true));
    assert!(!keyboard.is_down(Key::A, SHIFT | CTRL, true));
}

#[test]
fn keyboard_keeps_the_last_it_heard_of_each_key() {
    let mut keyboard = Keyboard::new();
    keyboard.on_keydown(Key::A, SHIFT);
    keyboard.on_keydown(Key::Unknown("Fn".to_string()), 0);
    keyboard.on_keydown(Key::A, ALT);
    assert!(keyboard.is_down(Key::A, ALT, true));
    assert!(!keyboard.is_down(Key::A, SHIFT, false));
    assert!(keyboard.is_down(Key::Unknown("Fn".to_string()), 0, true));
    assert!(keyboard.is_up(Key::Unknown("fn".to_string())));
    keyboard.on_keyup(Key::Unknown("Fn".to_string()));
    assert!(keyboard.is_up(Key::Unknown("Fn".to_string())));
    assert!(keyboard.is_down(Key::A, ALT, true));
    keyboard.on_keyup(Key::B);
    assert!(keyboard.is_up(Key::B));
}

#[test]
fn state_starts_empty() {
    let mut state = AppState::new();
    assert!(state.viewport.is_none());
    assert_eq!(state.config.host, "");
    assert!(state.keyboard.is_up(Key::Space));
    state.viewport = Some(Viewport { width: 800, height: 600 });
    let taken = state.viewport.take().unwrap();
    assert_eq!((taken.width, taken.height), (800, 600));
    assert_eq!(Config::new("localhost".to_string()).host, "localhost");
}

#[test]
fn numbers_compare_as_numbers() {
    let values = [
        0.0f32,
        -0.0,
        1.0,
        -1.0,
        0.5,
        100.0,
        99.999,
        f32::MIN_POSITIVE,
        -f32::MIN_POSITIVE,
        1.0e-45,
        -1.0e-45,
        f32::MAX,
        f32::MIN,
        f32::INFINITY,
        f32::NEG_INFINITY,
        f32::NAN,
        -f32::NAN,
    ];
    for a in values {
        assert_eq!(s(a).is_nan(), a.is_nan());
        for b in values {
            assert_eq!(s(a).equals(&s(b)), a == b, "{} == {}", a, b);
            assert_eq!(s(a).at_least(&s(b)), a >= b, "{} >= {}", a, b);
        }
    }
    assert!(Scalar::from_bits(0x7fc0_0000).is_nan());
    assert!(Scalar::from_bits(0xff80_0001).is_nan());
    assert!(!Scalar::from_bits(0x7f80_0000).is_nan());
    assert_eq!(Scalar::zero().to_bits(), 0);
    assert_eq!(s(1.0).to_bits(), 0x3f80_0000);
}

#[test]
fn vectors_compare_component_by_component() {
    let v = |x: f32, y: f32, z: f32| Vec3::new(s(x), s(y), s(z));
    assert!(v(1.0, 2.0, 3.0).equals(&v(1.0, 2.0, 3.0)));
    assert!(v(0.0, -0.0, 0.0).equals(&Vec3::zero()));
    assert!(!v(1.0, 2.0, 3.0).equals(&v(1.0, 2.0, 3.5)));
    assert!(!v(1.0, 2.0, 3.0).equals(&v(1.5, 2.0, 3.0)));
    assert!(!v(1.0, f32::NAN, 3.0).equals(&v(1.0, f32::NAN, 3.0)));
    assert!(v(0.0, -0.0, 0.0) != Vec3::zero());
}

#[test]
fn shader_errors_name_the_stage() {
    assert_eq!(
        compile_failure(VERTEX_SHADER, Some("bad".to_string())),
        ShaderError::CompileError("Vertex shader error: bad".to_string())
    );
    assert_eq!(
        compile_failure(FRAGMENT_SHADER, Some("worse".to_string())),
        ShaderError::CompileError("Fragment shader error: worse".to_string())
    );
    assert_eq!(compile_failure(0, Some("bad".to_string())), ShaderError::UnknownError);
    assert_eq!(compile_failure(VERTEX_SHADER, None), ShaderError::UnknownError);
    assert_eq!(compile_failure(FRAGMENT_SHADER, None), ShaderError::UnknownError);
    assert_eq!(link_failure(Some("x".to_string())), ShaderError::LinkError("Link error: x".to_string()));
    assert_eq!(link_failure(Some(String::new())), ShaderError::LinkError("Link error: ".to_string()));
    assert_eq!(link_failure(None), ShaderError::UnknownError);
    assert_eq!((VERTEX_SHADER, FRAGMENT_SHADER), (35633, 35632));
}

#[test]
fn numbers_are_written_in_decimal() {
    assert_eq!(decimal_text(0), "0");
    assert_eq!(decimal_text(7), "7");
    assert_eq!(decimal_text(10), "10");
    assert_eq!(decimal_text(109), "109");
    assert_eq!(decimal_text(1234567890), "1234567890");
    assert_eq!(decimal_text(usize::MAX), usize::MAX.to_string());
}

#[test]
fn uniforms_of_lights_are_named_by_index() {
    let uniform = light_uniform(12, "position", UniformValue::View);
    assert_eq!(uniform.name, "u_Lights[12].position");
    assert_eq!(uniform.value, UniformValue::View);
    assert_eq!(light_uniform(0, "ambient", UniformValue::Float(s(1.0))).name, "u_Lights[0].ambient");
    let uniform = named("u_Model", UniformValue::Projection);
    assert_eq!(uniform.name, "u_Model");
    assert_eq!(uniform.value, UniformValue::Projection);
}
