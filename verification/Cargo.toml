[package]
name = "rust_wasm_runtime"
version = "0.1.0"
edition = "2021"
publish = false

[dependencies]
leb128 = "0.2"
thiserror = "1"
tracing = "0.1"
tracing-subscriber = "0.3"
tracing-tree = "*"
