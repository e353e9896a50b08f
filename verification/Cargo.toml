[package]
name = "judge_core"
version = "0.1.0"
edition = "2021"
publish = false

[dependencies]
uuid = { version = "=1.27.0", features = ["v4"] }
bollard = "=0.21.1"
tokio = { version = "=1.53.2", features = ["rt-multi-thread", "macros", "time", "fs"] }
futures-util = "=0.3.34"
chrono = "=0.4.45"
