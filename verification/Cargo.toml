[package]
name = "survey_backend"
version = "0.1.0"
edition = "2021"
publish = false

[dependencies]
actix = "=0.7.9"
actix-web = { version = "=0.7.19", default-features = false }
env_logger = "=0.5.13"
failure = "=0.1.8"
futures = "=0.1.31"
log = "=0.4.34"
mysql = "=14.2.0"
num_cpus = "=1.17.0"
serde = "=1.0.229"
serde_derive = "=1.0.229"
