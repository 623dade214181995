//! The scene model of a small forward renderer: entities with spatial state,
//! their renderables, lights and materials, the tweens that smooth their
//! motion, and the draw calls of one frame.
//!
//! Numbers are carried as IEEE 754 bit patterns ([`Scalar`]); the library
//! compares them but leaves arithmetic on them to its host.

pub mod behaviour;
pub mod buffer;
pub mod context;
pub mod entity;
pub mod keyboard;
pub mod light;
pub mod material;
pub mod mesh;
pub mod message;
pub mod modifiers;
pub mod pool;
pub mod renderable;
pub mod scalar;
pub mod shader;
pub mod state;
pub mod transition;
pub mod uniform;

pub use buffer::EntityBuffer;
pub use behaviour::{follow_rotations, Behaviour};
pub use context::DrawableContext;
pub use entity::{Entity, EntityState};
pub use keyboard::{from_key_code, parse_key_event, Key, Keyboard};
pub use light::Light;
pub use material::Material;
pub use mesh::{Mesh, VertexAttribute};
pub use message::{Message, MessageError, MessageView, Serializable, Transform};
pub use pool::MessagePool;
pub use renderable::{Renderable, Tweens};
pub use scalar::{Scalar, Vec3, Vec4};
pub use transition::{Easing, Transition, TransitionFn, TweenSample};
pub use uniform::{DrawCall, Uniform, UniformValue};
pub use shader::{compile_failure, link_failure, ShaderError};
pub use state::{AppState, Config, Viewport};
