[package]
name = "fta"
version = "0.1.0"
edition = "2021"
publish = false

[dependencies]
swc_ecma_ast = "*"
swc_ecma_parser = "*"
swc_common = "*"
serde = { version = "*", features = ["derive"] }
serde_json = "*"
log = "*"
env_logger = "*"
ignore = "*"
globset = "*"
