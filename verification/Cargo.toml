[package]
name = "matono_client"
version = "0.1.0"
edition = "2021"
publish = false

[dependencies]
wgpu = "0.13"
winit = "0.26"
tokio = { version = "1", features = ["rt-multi-thread", "fs", "macros"] }
gltf = "1"
bytemuck = "1"
itertools = "0.10"
dyn-iter = "*"
owning_ref = "0.4"
js-sys = "0.3"
wasm-bindgen = "0.2"
wasm-bindgen-futures = "0.4"
web-sys = { version = "0.3", features = ["Window", "Document", "Element", "HtmlElement", "Node", "Request", "Response", "Blob", "console"] }
