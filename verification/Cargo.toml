[package]
name = "rkiauh"
version = "0.1.0"
edition = "2021"
publish = false

[dependencies]
anyhow = "=1.0.104"
git2 = { version = "=0.21.0", default-features = false, features = ["https"] }
ratatui = "=0.30.2"
sysinfo = "=0.40.1"
tokio = { version = "=1.54.1", features = ["macros", "rt-multi-thread"] }
zbus = "=6.2.1"
