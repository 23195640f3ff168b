[package]
name = "k8s_contract_provider"
version = "0.1.0"
edition = "2021"
publish = false

[dependencies]
clap = "=4.6.7"
env_logger = "=0.11.11"
hex = "=0.4.3"
k8s-openapi = { version = "=0.27.1", features = ["latest"] }
kube = "=3.1.0"
log = "=0.4.34"
openssl = "=0.10.81"
parse_duration = "=2.1.1"
prost = "=0.14.4"
tokio = { version = "=1.53.2", features = ["rt-multi-thread", "macros", "time", "fs", "signal"] }
tonic = "=0.14.6"
