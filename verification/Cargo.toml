[package]
name = "podlet"
version = "0.2.1"
edition = "2021"
publish = false

[dependencies]
clap = "4"
color-eyre = "0.6"
docker-compose-types = "0.6"
k8s-openapi = { version = "0.20", features = ["v1_28"] }
nix = { version = "0.27", features = ["user"] }
serde_yaml = "0.9"
