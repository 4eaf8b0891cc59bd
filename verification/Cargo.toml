[package]
name = "gitas"
version = "0.1.0"
edition = "2021"
publish = false

[dependencies]
clap = { version = "4", features = ["derive"] }
colored = "3"
crossterm = "0.29"
dirs = "6"
keyring = { version = "3", features = ["apple-native", "windows-native", "linux-native"] }
open = "5"
serde = { version = "1", features = ["derive"] }
serde_json = "1"
ureq = { version = "3", features = ["json"] }
