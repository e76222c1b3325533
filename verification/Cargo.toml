[package]
name = "ratisui"
version = "0.1.0"
edition = "2021"
publish = false

[dependencies]
base64 = "0.22"
jaded = { version = "*", features = ["serde"] }
ron = "*"
serde = { version = "1", features = ["derive"] }
serde_json = "1"
protobuf = "3"
unicode-width = "*"
substring = "*"
crossbeam-channel = "*"
tree-sitter = "*"
tree-sitter-highlight = "*"
tree-sitter-json = "*"
tree-sitter-html = "*"
tree-sitter-ron = "*"
redis = "*"
clap = "4"
dirs = "*"
itertools = "*"
