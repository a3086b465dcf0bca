[package]
name = "occlum_ratls"
version = "0.1.0"
edition = "2021"
publish = false

[dependencies]
rcgen = "=0.12.1"
ring = "=0.17.14"
x509-parser = "=0.15.1"
rustls = { version = "=0.21.12", features = ["dangerous_configuration"] }
occlum-sgx = "=0.1.13"
log = "0.4"
actix-http = "3"
actix-service = "2"
actix-web = { version = "4", default-features = false, features = ["rustls-0_21"] }
reqwest = { version = "0.11", default-features = false, features = ["rustls-tls"] }
