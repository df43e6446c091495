[package]
name = "gpkg_sink"
version = "0.1.0"
edition = "2021"
publish = false

[dependencies]
indexmap = "*"
serde_json = "*"
rayon = "*"
walkdir = "*"
zip = { version = "*", default-features = false, features = ["deflate"] }
