[package]
name = "ratchet-core"
version = "0.1.0"
edition = "2021"
publish = false

[dependencies]
slotmap = "=1.1.1"
wgpu = "=22.1.0"
log = "=0.4.34"
glam = "=0.30.10"
encase = { version = "=0.11.2", features = ["glam"] }
anyhow = "1"
derive-new = "*"
