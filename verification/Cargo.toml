[package]
name = "logpv2"
version = "1.0.4"
edition = "2021"
publish = false

[dependencies]
anyhow = "1"
chrono = "0.4"
clap = "4"
flate2 = "1"
futures-util = "0.3"
home = "0.5"
jsonxf = "1"
k8s-openapi = { version = "*", features = ["latest"] }
kube = { version = "*", features = ["ws"] }
serde = { version = "1", features = ["derive"] }
serde_derive = "1"
serde_json = "1"
simplelog = { version = "0.12", features = ["paris"] }
tar = "0.4"
time = { version = "0.3", features = ["macros"] }
tokio = { version = "1", features = ["full"] }
tokio-util = { version = "0.7", features = ["io"] }
