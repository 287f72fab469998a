[package]
name = "scip_build"
version = "0.1.0"
edition = "2021"
publish = false

[dependencies]
bindgen = "*"
cmake = "*"
pkg-config = "*"
tempfile = "*"
ureq = "*"
zip-extract = "*"
