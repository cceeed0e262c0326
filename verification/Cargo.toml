[package]
name = "hammster"
version = "0.1.0"
edition = "2021"
publish = false

[dependencies]
halo2_proofs = { version = "=0.4.0", features = ["dev-graph"] }
plotters = "=0.3.7"
rand = "=0.10.3"
rand_core = "=0.10.1"
wasm-bindgen = "=0.2.129"
js-sys = "=0.3.106"
