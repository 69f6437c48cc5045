[package]
name = "scaffold_core"
version = "0.1.0"
edition = "2021"
publish = false

[dependencies]
encoding_rs = "*"
hex = "*"
ignore = "*"
memmap2 = "*"
serde = "*"
serde_json = "*"
sha2 = "*"
streaming-iterator = "*"
tree-sitter = "*"
tree-sitter-go = "*"
tree-sitter-javascript = "*"
tree-sitter-python = "*"
tree-sitter-rust = "*"
tree-sitter-typescript = "*"
