[package]
name = "nightlightd"
version = "0.3.1"
edition = "2021"
publish = false

[dependencies]
clap = { version = "4", features = ["derive"] }
serde = { version = "1", features = ["derive"] }
toml = "0.8"
zbus = "5"
x11rb = { version = "0.13", features = ["randr"] }
rustix = { version = "1", features = ["event", "std"] }
signal-hook = "0.3"
tracing = "0.1"
tracing-subscriber = { version = "0.3", features = ["env-filter"] }
