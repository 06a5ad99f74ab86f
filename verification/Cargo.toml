[package]
name = "actix_dispatch"
version = "0.1.0"
edition = "2021"
publish = false

[dependencies]
actix-codec = "=0.4.2"
actix-rt = "=2.15.0"
actix-service = "=2.0.3"
actix-utils = "=3.0.2"
bytes = "=1.12.1"
derive_more = "=0.99.20"
futures-core = "=0.3.34"
h2 = "=0.3.27"
h3 = "0.0.3"
h3-quinn = "0.0.4"
http = "=0.2.12"
itoa = "=0.4.8"
log = "=0.4.34"
serde = "=1.0.229"
serde_json = "=1.0.154"
