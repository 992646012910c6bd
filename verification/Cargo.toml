[package]
name = "remove_imports"
version = "0.1.0"
edition = "2021"
publish = false

[dependencies]
swc_cached = "*"
serde_json = "*"
swc_core = { version = "*", default-features = false, features = ["ecma_ast", "ecma_visit", "common"] }
