[package]
name = "wasm_linkage"
version = "0.1.0"
edition = "2021"
publish = false

[dependencies]
cranelift-codegen = "0.52"
cranelift-entity = "0.52"
cranelift-wasm = "0.52"
