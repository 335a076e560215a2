[package]
name = "include_data_uri"
version = "0.1.0"
edition = "2021"
publish = false

[dependencies]
anyhow = "1"
base64 = "0.22"
mime_guess = "2"
proc-macro2 = "1"
quote = "1"
syn = "2"
