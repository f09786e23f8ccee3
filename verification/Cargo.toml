[package]
name = "sol_tools"
version = "0.1.0"
edition = "2021"
publish = false

[dependencies]
serde_json = "=1.0.154"
eframe = { version = "=0.23.0", default-features = false, features = ["default_fonts", "glow"] }
reqwest = { version = "=0.11.27", default-features = false, features = ["json", "rustls-tls"] }
tokio = { version = "=1.54.1", features = ["rt-multi-thread", "sync", "net", "time"] }
