[package]
name = "queyd"
version = "0.1.0"
edition = "2021"
publish = false

[dependencies]
async-graphql = { version = "=7.2.1", features = ["chrono"] }
chrono = "=0.4.45"
dirs = "=7.0.0"
glob = "=0.3.4"
lol_html = "=3.0.2"
markdown = "=1.0.0"
serde = { version = "=1.0.229", features = ["derive"] }
serde_yaml = "=0.9.34"
slugify = "=0.1.0"
tl = "=0.7.8"
