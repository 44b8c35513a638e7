[package]
name = "wal_telegram"
version = "0.1.0"
edition = "2021"
publish = false

[dependencies]
image = "*"
blurslice = "*"
xdg = "*"
zip = "*"
rand = "*"
