[package]
name = "ast_adapt"
version = "0.1.0"
edition = "2021"
publish = false

[dependencies]
serde_derive_internals = "=0.30.0"
syn = "=3.0.6"
proc-macro2 = "=1.0.107"
quote = "*"
