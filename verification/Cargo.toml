[package]
name = "ourobo"
version = "0.1.0"
edition = "2021"
publish = false

[dependencies]
dirs = "=6.0.0"
serde = { version = "=1.0.229", features = ["derive"] }
serde_json = "=1.0.154"
toml = "=0.9.12"
tokio = { version = "=1.54.1", features = ["full"] }
clap = { version = "=4.6.7", features = ["derive", "env"] }
notify = "=8.2.1"
notify-debouncer-mini = "=0.7.0"
thiserror = "=2.0.21"
tracing = "=0.1.44"
tracing-subscriber = { version = "=0.3.23", features = ["env-filter"] }
chrono = "=0.4.45"
async-trait = "=0.1.92"
image = { version = "=0.25.10", default-features = false, features = ["png"] }
eframe = { version = "0.37", default-features = false, features = ["glow", "x11", "default_fonts"] }
