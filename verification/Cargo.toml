[package]
name = "pewpewboom"
version = "0.1.0"
edition = "2021"
publish = false

[dependencies]
hexx = { version = "0.18", default-features = false }
bevy = { version = "0.14", default-features = false }
bevy_rand = "0.7"
bevy_prng = { version = "0.7", features = ["wyrand"] }
rand = "0.8"
noise = "0.9"
thiserror = "1"
