[package]
name = "battery_report"
version = "0.1.0"
edition = "2021"
publish = false

[dependencies]
anyhow = "=1.0.104"
bluest = "=0.6.9"
clap = { version = "=4.6.7", features = ["derive"] }
clap-verbosity-flag = "=3.0.4"
futures = "=0.3.34"
objc2-core-bluetooth = "=0.3.2"
serialport = { version = "=4.10.1", default-features = false }
simplelog = { version = "=0.12.2", features = ["paris"] }
tokio = { version = "=1.53.2", features = ["macros", "rt", "rt-multi-thread", "io-std", "io-util"] }
uuid = "=1.27.0"
