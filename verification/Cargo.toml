[package]
name = "svgpath"
version = "0.1.0"
edition = "2021"
publish = false

[dependencies]
lyon_geom = "*"
euclid = "*"
svgtypes = "*"
proc-macro2 = "*"
quote = "*"
syn = "*"
