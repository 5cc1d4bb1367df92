[package]
name = "indy_load_generator"
version = "0.1.0"
edition = "2021"
publish = false

[dependencies]
clap = { version = "=4.6.7", features = ["derive"] }
env_logger = "=0.11.11"
futures = "=0.3.34"
futures-executor = "=0.3.34"
indy-data-types = { version = "=0.7.1", features = ["cl"] }
indy-vdr = "=0.4.3"
log = "=0.4.34"
num_cpus = "=1.17.0"
rand = "=0.10.3"
serde_json = "=1.0.154"
signal-hook = "=0.4.5"
tokio = { version = "=1.54.1", features = ["rt", "rt-multi-thread", "time", "macros"] }
