[package]
name = "nbody"
version = "0.1.0"
edition = "2021"
publish = false

[dependencies]
rustc_apfloat = "=0.2.3"
softfloat = "=1.0.0"
wasm-bindgen = "=0.2.129"
wasm-bindgen-futures = "=0.4.79"
js-sys = "=0.3.106"
web-sys = { version = "=0.3.106", features = ["console", "Window", "Document", "Element", "HtmlCanvasElement", "WebGlRenderingContext", "WebGlProgram", "WebGlShader", "WebGlBuffer"] }
gloo = { version = "=0.12.0", features = ["futures"] }
console_error_panic_hook = "=0.1.7"
yew = { version = "0.21", features = ["csr"] }
