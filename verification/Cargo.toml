[package]
name = "stack_manager"
version = "0.1.0"
edition = "2021"
publish = false

[dependencies]
actix-web = { version = "=4.18.1", default-features = false, features = ["macros", "compress-gzip"] }
env_logger = "=0.11.11"
log = "=0.4.34"
mime_guess = "=2.0.5"
num_cpus = "=1.17.0"
regex = "=1.13.1"
rust-embed = { version = "=8.13.0", features = ["interpolate-folder-path"] }
serde = { version = "=1.0.229", features = ["derive"] }
serde_json = "=1.0.154"
tokio = { version = "=1.54.1", features = ["fs", "process", "sync", "time"] }
walkdir = "=2.5.0"
