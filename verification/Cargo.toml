[package]
name = "twm"
version = "0.1.0"
edition = "2021"
publish = false

[dependencies]
anyhow = "1"
clap = { version = "4", features = ["derive"] }
clap_complete = "4"
clap_mangen = "0.2"
config = { version = "0.14", default-features = false, features = ["yaml", "preserve_order"] }
crossterm = "0.27"
jwalk = "0.8"
nucleo = "0.5"
ratatui = "0.26"
schemars = "0.8"
serde = { version = "1", features = ["derive"] }
serde_json = "1"
serde_yaml = "0.9"
shellexpand = "3"
xdg = "2"
