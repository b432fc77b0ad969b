[package]
name = "geos"
version = "0.1.0"
edition = "2021"
publish = false

[dependencies]
rand = "0.8"
geo = "*"
geo-types = "*"
wkt = "*"
clap = { version = "4", features = ["derive"] }
clap-stdin = "*"
atty = "*"
h3o = { version = "*", features = ["geo"] }
s2 = "*"
