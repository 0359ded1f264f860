[package]
name = "third_person_core"
version = "0.1.0"
edition = "2021"
publish = false

[dependencies]
bevy_shuffle_bag = "=0.6.0"
rand = "=0.10.3"
ron = "=0.12.3"
serde = { version = "=1.0.229", features = ["derive"] }
thiserror = "=2.0.21"
