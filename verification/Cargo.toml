[package]
name = "timer_no_std"
version = "0.1.0"
edition = "2021"
publish = false

[dependencies]
educe = { version = "*", default-features = false, features = ["Debug"] }
libc = { version = "0.2", default-features = false }
num-traits = { version = "0.2", default-features = false }
pc-timer = "*"
winapi = { version = "0.3", features = ["synchapi", "sysinfoapi"] }
