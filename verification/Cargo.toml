[package]
name = "hashengine"
version = "0.1.0"
edition = "2021"
publish = false

[dependencies]
actix-web = { version = "4", default-features = false, features = ["macros", "compress-gzip"] }
env_logger = "0.11"
hex = "0.4"
log = "0.4"
mimalloc = "0.1"
napi = "2"
napi-derive = "2"
num_cpus = "1"
once_cell = "1"
rayon = "1"
serde = { version = "1", features = ["derive"] }
serde_json = "1"
