[package]
name = "feed_cache"
version = "0.1.0"
edition = "2021"
publish = false

[dependencies]
md5 = "*"
quick-xml = "*"
rayon = "*"
