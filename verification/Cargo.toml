[package]
name = "http_redirect"
version = "0.1.0"
edition = "2021"
publish = false

[dependencies]
http = "*"
http-body = "*"
pin-project-lite = "*"
tower-layer = "*"
tower-service = "*"
