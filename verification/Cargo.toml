[package]
name = "librustymastodon"
version = "0.1.0"
edition = "2021"
publish = false

[dependencies]
http = "*"
nanoserde = "*"
reqwest = { version = "*", default-features = false, features = ["blocking"] }
vercel_lambda = "*"
