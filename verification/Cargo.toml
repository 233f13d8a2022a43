[package]
name = "pmv_cli"
version = "0.1.0"
edition = "2021"
publish = false

[dependencies]
urlencoding = "2"
unicode-width = "*"
clap = { version = "4", features = ["derive"] }
serde = { version = "1", features = ["derive"] }
serde_json = "1"
serde_repr = "*"
tokio = { version = "1", features = ["full"] }
reqwest = { version = "*", default-features = false, features = ["json", "multipart", "stream"] }
hyper = "*"
term_size = "*"
