[package]
name = "helm"
version = "0.1.0"
edition = "2021"
publish = false

[dependencies]
libc = "=0.2.190"
pam = "=0.8.0"
users = "=0.11.0"
