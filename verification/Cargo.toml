[package]
name = "lunaris_compositor"
version = "0.1.0"
edition = "2021"
publish = false

[dependencies]
anyhow = "=1.0.104"
calloop = "=0.14.5"
chrono = "=0.4.45"
futures-executor = { version = "=0.3.34", features = ["thread-pool"] }
futures-util = "=0.3.34"
keyframe = "=1.1.1"
log-panics = "=2.1.0"
notify = "=7.0.0"
prost = "=0.13.5"
regex = "=1.13.1"
ron = "=0.12.3"
serde = { version = "=1.0.229", features = ["derive"] }
serde_json = "=1.0.154"
smithay = { version = "=0.7.0", default-features = false }
sunrise = "=1.2.1"
tempfile = "=3.27.0"
tiny-skia = "=0.11.4"
toml = "=0.8.23"
tracing = "=0.1.44"
tracing-journald = "=0.3.2"
tracing-subscriber = { version = "=0.3.23", features = ["env-filter"] }
uuid = { version = "=1.29.0", features = ["v7"] }
wayland-client = "=0.31.15"
wayland-protocols = { version = "0.32", features = ["client"] }
xdg = "=3.0.0"
zbus = "=5.19.0"

[dev-dependencies]
xkeysym = "=0.2.1"
