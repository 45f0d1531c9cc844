[package]
name = "txt2ebook"
version = "0.1.0"
edition = "2021"
publish = false

[dependencies]
regex = "1"
handlebars = "4"
serde = { version = "1", features = ["derive"] }
toml = "0.5"
clap = "3"
encoding = "0.2"
encodingbufreader = "0.1"
rust-embed = "8"
zip = { version = "0.6", default-features = false, features = ["deflate"] }
