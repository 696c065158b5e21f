[package]
name = "oxc_codegen"
version = "0.1.0"
edition = "2021"
publish = false

[dependencies]
cow-utils = "=0.1.3"
dragonbox_ecma = "=0.1.12"
itoa = "=1.0.18"
oxc_allocator = "0.95.0"
oxc_ast = "0.95.0"
oxc_data_structures = { version = "0.95.0", features = ["code_buffer", "stack"] }
oxc_index = "4"
oxc_semantic = "0.95.0"
oxc_sourcemap = "6"
oxc_span = "0.95.0"
oxc_syntax = "0.95.0"
rustc-hash = "=2.1.3"
