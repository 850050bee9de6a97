[package]
name = "ffplayout"
version = "0.1.0"
edition = "2021"
publish = false

[dependencies]
shlex = "=1.3.0"
serde = { version = "=1.0.229", features = ["derive"] }
serde_yaml = "=0.9.34"
rand = "=0.8.8"
argon2 = "=0.5.3"
reqwest = { version = "=0.11.27", default-features = false, features = ["json"] }
sqlx = { version = "=0.7.4", default-features = false, features = ["sqlite", "runtime-tokio", "migrate"] }
simplelog = { version = "=0.12.2", features = ["paris"] }
