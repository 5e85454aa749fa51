[package]
name = "metro_swc_transformer"
version = "0.1.0"
edition = "2021"
publish = false

[dependencies]
serde = { version = "*", features = ["derive"] }
string_cache = "*"
swc = "*"
swc_config = "*"
swc_common = "*"
swc_ecma_ast = "*"
swc_ecma_parser = "*"
swc_ecma_transforms_module = "*"
swc_ecma_transforms_react = "*"
swc_ecma_utils = "*"
