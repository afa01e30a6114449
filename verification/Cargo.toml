[package]
name = "portability_gfx"
version = "0.1.0"
edition = "2021"
publish = false

[dependencies]
gfx-hal = "0.5"
gfx-backend-empty = "0.5"
log = "0.4"
lazy_static = "1"
smallvec = "1"
copyless = "0.1"
env_logger = "0.7"
