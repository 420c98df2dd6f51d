[package]
name = "sysmon"
version = "0.1.0"
edition = "2021"
publish = false

[dependencies]
sysinfo = "*"
nvml-wrapper = "*"
raw-cpuid = "*"
serde = { version = "*", features = ["derive"] }
clap = { version = "*", features = ["derive"] }
clap_complete = "*"
