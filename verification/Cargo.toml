[package]
name = "transit_flatten"
version = "0.1.0"
edition = "2021"
publish = false

[dependencies]
curl = "*"
rayon = "*"
polars = { version = "*", default-features = false, features = ["csv", "fmt"] }
