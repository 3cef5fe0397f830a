[package]
name = "gitserve"
version = "0.1.0"
edition = "2021"
publish = false

[dependencies]
clap = { version = "=4.6.7", features = ["derive"] }
dav-server = { version = "=0.11.0", features = ["warp-compat"] }
git2 = { version = "=0.21.0", default-features = false }
indicatif = "=0.18.6"
local-ip-address = "=0.6.13"
tokio = { version = "=1.54.1", features = ["macros", "rt-multi-thread", "time"] }
warp = "=0.3.7"
