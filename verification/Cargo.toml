[package]
name = "fncv"
version = "0.1.0"
edition = "2021"
publish = false

[dependencies]
clap = "*"
quick-xml = "*"
svg2polylines = "*"
resvg = "*"
usvg = "*"
