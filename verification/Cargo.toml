[package]
name = "prometheus_agents_setup"
version = "0.1.0"
edition = "2021"
publish = false

[dependencies]
flate2 = "=1.1.10"
tar = "=0.4.46"
zip = { version = "=8.6.0", default-features = false, features = ["deflate"] }
reqwest = { version = "=0.13.5", default-features = false, features = ["blocking"] }

[dev-dependencies]
tempfile = "*"
