[package]
name = "envprobe"
version = "0.1.0"
edition = "2021"
publish = false

[dependencies]
winapi = { version = "=0.3.9", features = ["debugapi", "handleapi", "memoryapi", "minwindef", "processthreadsapi", "psapi", "sysinfoapi", "winerror", "winnt", "winreg"] }
