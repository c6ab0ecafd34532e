[package]
name = "bioyino_peer"
version = "0.1.0"
edition = "2021"
publish = false

[dependencies]
bioyino-metric = "=0.1.0"
capnp = "=0.10.3"
capnp-futures = "=0.10.1"
bytes = "=0.4.12"
futures = "=0.1.31"
tokio = "=0.1.22"
slog = "=2.8.2"
failure = "=0.1.8"
failure_derive = "=0.1.8"
net2 = "=0.2.39"
