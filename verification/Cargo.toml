[package]
name = "pdb_typeinfo"
version = "0.1.0"
edition = "2021"
publish = false

[dependencies]
pdb = "*"
log = "*"
serde = { version = "*", features = ["derive"] }
