[package]
name = "next_turbo"
version = "0.1.0"
edition = "2021"
publish = false

[dependencies]
anyhow = "1"
bincode = { version = "2", features = ["derive"] }
data-encoding = "2"
indoc = "2"
once_cell = "1"
proc-macro2 = "1"
quote = "1"
rustc-hash = "2"
syn = { version = "2", features = ["full"] }
