[package]
name = "reminder_timer"
version = "0.1.0"
edition = "2021"
publish = false

[dependencies]
chrono = { version = "0.4", default-features = false, features = ["clock"] }
fern = "0.6"
log = "0.4"
tokio = { version = "1", default-features = false, features = ["sync", "time", "rt"] }
