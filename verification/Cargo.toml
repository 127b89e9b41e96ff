[package]
name = "static_serve"
version = "0.1.0"
edition = "2021"
publish = false

[dependencies]
mime_guess = "*"
path-slash = "*"
actix-web = { version = "*", default-features = false }
futures-util = "*"
change-detection = "*"
derive_more = { version = "*", features = ["display", "error"] }
