[package]
name = "xr_input"
version = "0.1.0"
edition = "2021"
publish = false

[dependencies]
anyhow = "1"
glam = "*"
libmonado = "*"
log = "0.4"
openxr = "*"
serde = { version = "1", features = ["derive"] }
serde_json5 = "*"
