[package]
name = "oofbot"
version = "0.1.0"
edition = "2021"
publish = false

[dependencies]
chrono = "0.4"
regex = "1"
rand = "0.7"
serenity = { version = "0.9", features = ["voice"] }
tokio = { version = "0.2", features = ["macros", "rt-threaded", "sync", "time", "stream"] }
futures = "0.3"
ctrlc = "3"
sqlite = "0.25"
