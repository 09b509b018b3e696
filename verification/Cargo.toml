[package]
name = "koala_dns"
version = "0.1.0"
edition = "2021"
publish = false

[dependencies]
mio = { version = "1", features = ["os-poll", "net"] }
log = "0.4"
env_logger = "0.11"
getopts = "0.2"
