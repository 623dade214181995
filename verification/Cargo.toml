[package]
name = "cube_renderer"
version = "0.1.0"
edition = "2021"
publish = false

[dependencies]
console_error_panic_hook = "0.1"
js-sys = "0.3"
lazy_static = "1"
nalgebra-glm = "*"
wasm-bindgen = "0.2"
web-sys = { version = "0.3", features = ["Blob", "Document", "Element", "HtmlCanvasElement", "KeyboardEvent", "MessageEvent", "Performance", "WebGl2RenderingContext", "WebGlBuffer", "WebGlProgram", "WebGlShader", "WebGlUniformLocation", "WebGlVertexArrayObject", "WebSocket", "Window", "console"] }
