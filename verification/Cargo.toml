[package]
name = "slowhand"
version = "0.1.0"
edition = "2021"
publish = false

[dependencies]
kdl = "6"
rand = "0.9"
base64 = "0.22"
infer = "0.19"
imagesize = "0.14"
sha1_smol = "1"
serde = { version = "1", features = ["derive"] }
serde_json = "1"
anyhow = "1"
axum = { version = "0.8", features = ["multipart"] }
tokio = { version = "1", features = ["macros", "rt-multi-thread", "net", "fs", "io-util"] }
tokio-stream = { version = "0.1", features = ["io-util"] }
tokio-util = { version = "0.7", features = ["io"] }
futures-util = "0.3"
async-graphql = { version = "7", default-features = false, features = ["dynamic-schema", "graphiql"] }
async-graphql-axum = "7"
axum-server-timing = "3"
rust-embed = "8"
mime_guess = "2"
turso = { version = "*", default-features = false }
