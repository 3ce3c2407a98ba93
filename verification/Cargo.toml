[package]
name = "avro_typegen"
version = "0.1.0"
edition = "2021"
publish = false

[dependencies]
avro-rs = "0.13"
clap = { version = "4", features = ["derive"] }
swc_common = "*"
swc_ecma_ast = "*"
swc_ecma_codegen = "*"
