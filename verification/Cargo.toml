[package]
name = "idgen"
version = "1.4.0"
edition = "2021"
publish = false

[dependencies]
bson = "2"
chrono = "0.4"
clap = { version = "4", features = ["derive"] }
clap_complete = "4"
clap_mangen = "0.2"
cuid = "1.3"
nanoid = "0.4"
regex = "1"
serde = { version = "1", features = ["derive"] }
serde_json = "1"
ulid = "1"
uuid = { version = "1.18", features = ["v1", "v3", "v4", "v5"] }
