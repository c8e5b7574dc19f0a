[package]
name = "gltf_viewer"
version = "0.1.0"
edition = "2021"
publish = false

[dependencies]
gltf = "1"
cgmath = "0.18"
gloo-console = "0.3"
js-sys = "0.3"
wasm-bindgen = "0.2"
web-sys = { version = "0.3", features = ["Window", "Document", "Element", "HtmlCanvasElement", "WebGl2RenderingContext", "WebGlProgram", "WebGlShader", "WebGlBuffer", "WebGlUniformLocation"] }
