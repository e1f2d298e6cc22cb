[package]
name = "bsky_rpg"
version = "0.1.0"
edition = "2021"
publish = false

[dependencies]
actix-web = "=4.18.1"
async-trait = "=0.1.92"
atrium-api = "=0.25.8"
atrium-xrpc-client = { version = "0.5", default-features = false, features = ["reqwest"] }
charybdis = "=0.7.14"
env_logger = "=0.11.11"
harper-core = { version = "=0.16.0", features = ["concurrent"] }
jetstream-oxide = "=0.1.2"
once_cell = "=1.21.4"
paris = { version = "=1.5.15", features = ["macros"] }
scylla = "=0.15.1"
serde = { version = "=1.0.229", features = ["derive"] }
serde_json = "=1.0.154"
tokio = { version = "=1.54.1", features = ["full"] }
