[package]
name = "quork"
version = "0.1.0"
edition = "2021"
publish = false

[dependencies]
syn = { version = "2", features = ["full", "extra-traits"] }
proc-macro2 = "1"
quote = "1"
proc-macro-error2 = "2"
proc-macro-crate = "3"
parking_lot = "0.12"
thiserror = "1"
windows = { version = "0.58", features = ["Win32_Networking_NetworkListManager", "Win32_System_Com"] }
