[package]
name = "xnb_tool"
version = "0.1.0"
edition = "2021"
publish = false

[dependencies]
anyhow = "1"
bcndecode = "*"
byteorder = "1"
clap = { version = "4", features = ["derive"] }
flate2 = "1"
glam = "*"
gltf = { version = "1", default-features = false, features = ["extras", "names"] }
image = { version = "0.25", default-features = false, features = ["png"] }
lzxd = "*"
rmp-serde = "1"
serde = { version = "1", features = ["derive"] }
serde_json = "1"
walkdir = "2"
