[package]
name = "idml_render"
version = "0.1.0"
edition = "2021"
publish = false

[dependencies]
serde = { version = "*", features = ["derive"] }
quick-xml = { version = "*", features = ["serialize"] }
derive-getters = "*"
dirs = "*"
libharu-sys = "*"
