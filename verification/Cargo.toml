[package]
name = "hyper_tls"
version = "0.1.0"
edition = "2021"
publish = false

[dependencies]
hyper = "0.13"
native-tls = "0.2"
tokio = "0.2"
tokio-tls = "0.3"
tower-service = "0.3"
