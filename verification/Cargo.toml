[package]
name = "emergency_backup"
version = "0.1.0"
edition = "2021"
publish = false

[dependencies]
serde = { version = "*", features = ["derive"] }
serde_json = "*"
chrono = "*"
cpu-time = "*"
home = "*"
sysinfo = "*"
auto-launch = "*"
libc = "*"
rebackup = "*"
