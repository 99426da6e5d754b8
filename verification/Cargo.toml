[package]
name = "volumetric_renderer"
version = "0.1.0"
edition = "2021"
publish = false

[dependencies]
anyhow = "1"
arcball = "*"
cgmath = "*"
js-sys = "0.3"
thiserror = "1"
wasm-bindgen = "0.2"
web-sys = { version = "0.3", features = [
    "console",
    "Document",
    "Element",
    "Event",
    "EventTarget",
    "HtmlCanvasElement",
    "HtmlElement",
    "MouseEvent",
    "Node",
    "WheelEvent",
    "Window",
    "WebGl2RenderingContext",
    "WebGlBuffer",
    "WebGlProgram",
    "WebGlShader",
    "WebGlTexture",
    "WebGlUniformLocation",
    "WebGlVertexArrayObject",
] }
