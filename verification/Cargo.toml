[package]
name = "tweetdelete"
version = "0.1.0"
edition = "2021"
publish = false

[dependencies]
chrono = "=0.4.45"
clap = { version = "=3.2.25", features = ["env"] }
egg-mode = "=0.16.1"
serde = { version = "=1.0.229", features = ["derive"] }
serde_yaml = "=0.9.34"
shellexpand = "=3.1.2"
thiserror = "=1.0.69"
tokio = { version = "=1.53.2", features = ["macros", "rt-multi-thread"] }
