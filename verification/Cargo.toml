[package]
name = "modrad-radius"
version = "0.1.0"
edition = "2021"
publish = false

[dependencies]
hmac = "*"
md-5 = "*"
async-trait = "*"
tokio = { version = "1", features = ["net", "rt-multi-thread", "macros", "time", "sync"] }
