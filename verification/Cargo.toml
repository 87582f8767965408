[package]
name = "ytdl_helper"
version = "0.1.0"
edition = "2021"
publish = false

[dependencies]
browser-locations = "*"
reqwest = { version = "0.12", default-features = false, features = ["blocking", "rustls-tls"] }
tar = "0.4"
xz2 = "0.1"
zip = { version = "2", default-features = false, features = ["deflate"] }
