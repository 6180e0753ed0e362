[package]
name = "contact_manager"
version = "0.1.0"
edition = "2021"
publish = false

[dependencies]
anyhow = "1"
chrono = "0.4"
clap = "2"
imap = "2"
log = "0.4"
mailparse = "*"
native-tls = "0.2"
quick-xml = "0.37"
reqwest = "0.11"
