[package]
name = "figment_clap_together"
version = "0.1.0"
edition = "2021"
publish = false

[dependencies]
clap = { version = "4", features = ["derive"] }
figment = { version = "0.10", features = ["toml", "env"] }
serde = { version = "1", features = ["derive"] }

[dev-dependencies]
figment = { version = "0.10", features = ["toml", "env", "test"] }
