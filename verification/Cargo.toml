[package]
name = "dimas"
version = "0.1.0"
edition = "2021"
publish = false

[dependencies]
hashbrown = "*"
roxmltree = "*"
evalexpr = "*"
thiserror = "*"
parking_lot = "*"
libloading = "*"
tokio = { version = "*", features = ["rt", "time", "sync"] }
clap = { version = "*", features = ["derive"] }
