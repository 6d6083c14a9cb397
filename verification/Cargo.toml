[package]
name = "bevy_steamworks"
version = "0.1.0"
edition = "2021"
publish = false

[dependencies]
bevy_app = "=0.17.3"
bevy_ecs = "=0.17.3"
steamworks = "=0.13.1"
thiserror = "=2.0.21"
tracing = "=0.1.44"
