[package]
name = "crater"
version = "0.1.0"
edition = "2021"
publish = false

[dependencies]
rand = "*"
serde = { version = "*", features = ["derive"] }
serde_json = "*"
tokio = { version = "*", features = ["macros", "rt-multi-thread", "time", "fs"] }
reqwest = { version = "*", default-features = false, features = ["json", "rustls-tls"] }
chrono = "*"
dotenv = "*"
tracing = "*"
tracing-subscriber = { version = "*", features = ["env-filter", "fmt"] }
color-eyre = "*"
