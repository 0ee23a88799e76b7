[package]
name = "ds4l"
version = "0.1.0"
edition = "2021"
publish = false

[dependencies]
crc32fast = "1"
hidapi = { version = "2.6", default-features = false, features = ["linux-native-basic-udev"] }
serde = { version = "1", features = ["derive"] }
toml = "0.8"
dirs = "5"
libc = "0.2"
ctrlc = { version = "3", features = ["termination"] }
gtk4 = "0.9"
ksni = { version = "0.3", features = ["blocking"] }
