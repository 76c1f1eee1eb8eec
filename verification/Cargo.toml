[package]
name = "time_tz"
version = "0.1.0"
edition = "2021"
publish = false

[dependencies]
time = "0.3"
thiserror = "1"
cfg-if = "1"
windows-sys = { version = "*", features = ["Win32_Foundation", "Win32_System_Time"] }

[dev-dependencies]
nom = "7"
