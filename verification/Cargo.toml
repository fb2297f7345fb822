[package]
name = "hir"
version = "0.1.0"
edition = "2021"
publish = false

[dependencies]
auto-lsp = "*"
compact_str = "*"
rustc-hash = "*"
