[package]
name = "rzctl"
version = "0.1.0"
edition = "2021"
publish = false

[dependencies]
ntapi = "0.4"
widestring = "1"
winapi = { version = "0.3", features = ["minwindef", "ntdef", "winerror", "fileapi", "handleapi", "ioapiset", "winnt"] }
