[package]
name = "edamame_posture"
version = "0.1.0"
edition = "2021"
publish = false

[dependencies]
clap = "=4.6.7"
daemonize = "=0.5.0"
dirs = "=5.0.1"
fs2 = "=0.4.3"
glob = "=0.3.4"
indicatif = "0.17"
machine-uid = "=0.5.4"
serde_yaml = "=0.9.34"
sysinfo = "=0.30.13"
tracing = "=0.1.44"
widestring = "=1.2.1"
windows = { version = "=0.52.0", features = ["Win32_Foundation", "Win32_Security", "Win32_System_Threading"] }
