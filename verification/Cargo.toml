[package]
name = "vidify"
version = "0.1.0"
edition = "2021"
publish = false

[dependencies]
rspotify = { version = "=0.16.1", default-features = false, features = ["client-ureq", "ureq-rustls-tls"] }
webbrowser = "=1.2.4"
dirs = "=7.0.0"
dirs-next = "=2.0.0"
simplelog = "=0.12.2"
log = "=0.4.34"
thiserror = "=2.0.21"
clap = "=2.34.0"
structconf = "=0.5.0"
strum = "=0.28.0"
strum_macros = "=0.28.0"
