[package]
name = "alacritree"
version = "0.1.0"
edition = "2021"
publish = false

[dependencies]
serde_json = "1"
toml = "0.9"
unicode-width = "0.2"
nucleo-matcher = "0.3"
serde = { version = "1", features = ["derive"] }
clap = { version = "4", default-features = false, features = ["derive", "std", "help", "usage", "error-context"] }
log = "0.4"
env_logger = { version = "0.11", default-features = false }
libc = "0.2"
interprocess = "2"
notify-rust = "4"
png = "0.17"
thiserror = "2"
egui = "0.31"
egui_glow = { version = "0.31", default-features = false }
