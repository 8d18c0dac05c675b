[package]
name = "auto_table"
version = "0.1.0"
edition = "2021"
publish = false

[dependencies]
syn = "2"
quote = "1"
proc-macro2 = "1"
serde = { version = "1", features = ["derive"] }
async-trait = "0.1"
tracing = "0.1"
turso = "*"
