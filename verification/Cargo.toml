[package]
name = "nexus"
version = "0.1.0"
edition = "2021"
publish = false

[dependencies]
bytes = "=1.12.1"
http = "=0.2.12"
http-body = "0.4"
serde = "=1.0.229"
serde_urlencoded = "=0.7.1"
tower-service = "=0.3.3"
