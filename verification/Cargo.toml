[package]
name = "icaly"
version = "0.1.0"
edition = "2021"
publish = false

[dependencies]
chrono = "=0.4.45"
icalendar = "=0.17.15"
serenity = { version = "=0.12.5", features = ["chrono"] }
tokio = { version = "=1.54.1", features = ["macros", "rt-multi-thread", "fs"] }
