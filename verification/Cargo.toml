[package]
name = "react_refresh"
version = "0.1.0"
edition = "2021"
publish = false

[dependencies]
sugar_path = "0.0"
swc_common = "*"
swc_ecma_ast = "*"
swc_ecma_visit = "*"
swc_ecma_transforms = { version = "*", features = ["react"] }
