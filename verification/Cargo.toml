[package]
name = "component_actor"
version = "0.1.0"
edition = "2021"
publish = false

[dependencies]
hyperion-framework = "=0.4.2"
tokio = { version = "=1.54.1", features = ["full"] }
serde = { version = "=1.0.229", features = ["derive"] }
log = "=0.4.34"
async-trait = "=0.1.92"
