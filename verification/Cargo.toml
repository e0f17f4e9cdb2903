[package]
name = "space_menace"
version = "0.1.0"
edition = "2021"
publish = false

[dependencies]
log = "0.4"
serde = { version = "1", features = ["derive"] }
specs-derive = "=0.4.1"
specs-physics = "=0.3.0"
