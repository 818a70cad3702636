[package]
name = "lazygitrs"
version = "0.1.0"
edition = "2021"
publish = false

[dependencies]
anyhow = "1"
dirs = "*"
ratatui = "*"
crossterm = "*"
serde = { version = "1", features = ["derive"] }
serde_yaml = "*"
libloading = "*"
tree-sitter = "*"
tree-sitter-highlight = "*"
tree-sitter-language = "*"
tree-sitter-bash = "*"
tree-sitter-c = "*"
tree-sitter-css = "*"
tree-sitter-go = "*"
tree-sitter-html = "*"
tree-sitter-java = "*"
tree-sitter-javascript = "*"
tree-sitter-json = "*"
tree-sitter-lua = "*"
tree-sitter-md = "*"
tree-sitter-python = "*"
tree-sitter-rust = "*"
tree-sitter-toml-ng = "*"
tree-sitter-typescript = "*"
tree-sitter-yaml = "*"
arborium-dockerfile = "*"
