[package]
name = "rv_core"
version = "0.1.0"
edition = "2021"
publish = false

[dependencies]
camino = "*"
fs-err = "*"
tempfile = "*"
tar = "*"
flate2 = "*"
url = "*"
bytes = "*"
reqwest = { version = "*", default-features = false }
tokio = { version = "*", features = ["rt-multi-thread", "macros"] }
futures-util = "*"
clap = { version = "*", features = ["derive"] }
clap_derive = "*"
thiserror = "*"
current_platform = "*"
