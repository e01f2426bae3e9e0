[package]
name = "minits"
version = "0.1.0"
edition = "2021"
publish = false

[dependencies]
log = "0.4"
winapi = { version = "0.3", features = ["sysinfoapi", "errhandlingapi", "winerror", "winnt", "fileapi", "ioapiset", "minwinbase", "winbase"] }
