[package]
name = "offsetup"
version = "0.1.0"
edition = "2021"
publish = false

[dependencies]
config = { version = "0.9", default-features = false, features = ["yaml"] }
itertools = "0.8"
os_type = "2.2"
serde = { version = "1.0", features = ["derive"] }
structopt = "0.2"
urlparse = "0.7"
validator = "0.8"
validator_derive = "0.8"
walkdir = "2"
winapi = { version = "0.3", features = ["minwindef", "ntdef", "ntstatus", "sysinfoapi", "winnt", "winuser"] }
winreg = "0.6"
