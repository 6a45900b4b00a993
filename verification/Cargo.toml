[package]
name = "swear_jar"
version = "0.1.0"
edition = "2021"
publish = false

[dependencies]
regex = "1"
time = "0.3"
poise = "0.6"
tokio = { version = "1", features = ["macros", "rt-multi-thread"] }
serde_json = "1"
dotenv = "0.15"
