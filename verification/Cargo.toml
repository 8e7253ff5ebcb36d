[package]
name = "ntex_mqtt"
version = "0.1.0"
edition = "2021"
publish = false

[dependencies]
log = "=0.4.34"
ntex-bytes = "=0.1.31"
ntex-codec = "=0.6.2"
ntex-io = "=0.1.11"
ntex-router = "=0.5.3"
ntex-service = "=0.3.3"
ntex-util = "=0.1.19"
