[package]
name = "vhost_proxy"
version = "0.1.0"
edition = "2021"
publish = false

[dependencies]
radix_trie = "*"
pingora = { version = "*", features = ["lb"] }
async-trait = "*"
