[package]
name = "rustm"
version = "0.1.0"
edition = "2021"
publish = false

[dependencies]
serde_norway = "*"
serde = "1"
dirs = "*"
log = "*"
simplelog = "*"
git2 = "*"
cursive = "0.21"
