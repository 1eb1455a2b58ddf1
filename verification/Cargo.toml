[package]
name = "ironrdp_client"
version = "0.1.0"
edition = "2021"
publish = false

[dependencies]
ironrdp-pdu = "=0.11.0"
ironrdp-displaycontrol = "=0.10.0"
ironrdp-core = "=0.3.1"
bytes = "=1.12.1"
lazy_static = "=1.5.1"
log = "=0.4.35"
bufstream = "=0.1.4"
rustls = "=0.23.46"
sspi = "=0.23.1"
