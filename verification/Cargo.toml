[package]
name = "thumbor"
version = "0.1.0"
edition = "2021"
publish = false

[dependencies]
base64 = "0.13"
photon-rs = "*"
anyhow = "1"
clap = { version = "4", features = ["derive"] }
colored = "2"
mime = "0.3"
jsonxf = "1"
reqwest = { version = "0.12", default-features = false, features = ["json"] }
tokio = { version = "1", features = ["macros", "rt-multi-thread"] }
