[package]
name = "arrakis"
version = "0.1.0"
edition = "2021"
publish = false

[dependencies]
clap = "=2.34.0"
hyper = "=0.10.16"
iron = "=0.6.1"
log = "=0.4.34"
postgres = "=0.19.14"
pretty_env_logger = "=0.5.0"
r2d2 = "=0.8.10"
r2d2_postgres = "=0.18.2"
serde_json = "=1.0.154"
time = "=0.1.45"
unicase = "=1.4.2"
urlencoded = "=0.6.0"
