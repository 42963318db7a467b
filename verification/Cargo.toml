[package]
name = "facet-cargo-toml"
version = "0.1.0"
edition = "2021"
publish = false

[dependencies]
camino = "*"
facet = "*"
facet-toml = "*"
facet-value = "*"
