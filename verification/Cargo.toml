[package]
name = "psw"
version = "0.1.0"
edition = "2021"
publish = false

[dependencies]
srp = "0.6"
blake2 = "0.10"
num-bigint = "0.4"
argon2 = "0.5"
rand = "0.8"
serde-email = "3"
serde = { version = "1", features = ["derive"] }
serde_json = "1"
clap = "4"
tokio = { version = "1", features = ["macros", "rt-multi-thread", "sync"] }
tokio-stream = "0.1"
tonic = "0.12"
prost = "0.13"
rpassword = "7"
dotenvy = "0.15"
text_io = "0.1"
axum = "0.7"
diesel = { version = "2", features = ["postgres", "r2d2"] }
