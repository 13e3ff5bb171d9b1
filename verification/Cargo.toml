[package]
name = "sys_stats"
version = "0.1.0"
edition = "2021"
publish = false

[dependencies]
serde = { version = "=1.0.229", features = ["derive"] }
serde_json = "=1.0.154"
clap = { version = "=4.6.7", features = ["derive"] }
tokio = { version = "=1.54.1", features = ["macros", "rt-multi-thread", "time"] }
reqwest = { version = "=0.12.28", default-features = false, features = ["json", "rustls-tls"] }
sysinfo = "=0.30.13"
dirs = "=5.0.1"
rpassword = "=7.5.4"
rusqlite = { version = "=0.31.0", features = ["bundled"] }
worker = { version = "*", features = ["d1"] }
uuid = { version = "1", features = ["v4"] }
