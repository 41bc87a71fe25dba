[package]
name = "chat_hub"
version = "0.1.0"
edition = "2021"
publish = false

[dependencies]
chrono = "=0.4.45"
colored = "=2.2.0"
once_cell = "=1.21.4"
rand = "=0.8.8"
random_color = "=1.1.0"
reqwest = { version = "=0.12.28", features = ["json"] }
serde = { version = "=1.0.229", features = ["derive"] }
serde_json = "=1.0.154"
simple_env_load = "=0.2.0"
tokio = { version = "=1.54.1", features = ["time"] }
twitch_eventsub = "=0.1.2"
