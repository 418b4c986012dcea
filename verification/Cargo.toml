[package]
name = "zz-drop-tui"
version = "0.1.0"
edition = "2021"
publish = false

[dependencies]
url = "2"
qrcode = { version = "0.14", default-features = false }
ratatui = "0.29"
ratatui-image = { version = "8", default-features = false, features = ["crossterm"] }
image = { version = "0.25", default-features = false }
arboard = { version = "3", default-features = false }
open = "5"
directories = "6"
rustix = { version = "1", features = ["process"] }
