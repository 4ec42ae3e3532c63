[package]
name = "gcp_gcs"
version = "0.1.0"
edition = "2021"
publish = false

[dependencies]
http = "0.2"
goauth = "*"
snafu = "0.7"
async-trait = "0.1"
serde = { version = "1", features = ["derive"] }
serde_with = "*"
typetag = "0.2"
