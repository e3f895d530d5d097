[package]
name = "tree_grepper"
version = "0.1.0"
edition = "2021"
publish = false

[dependencies]
tree-sitter = "0.20"

[dev-dependencies]
tree-sitter-rust = "0.20"
tree-sitter-json = "0.20"
