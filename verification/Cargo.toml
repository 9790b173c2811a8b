[package]
name = "kuvpn"
version = "0.1.0"
edition = "2021"
publish = false

[dependencies]
which = "=8.0.6"
anyhow = "=1.0.104"
clap = { version = "=4.6.7", features = ["derive"] }
serde = { version = "=1.0.229", features = ["derive"] }
serde_json = "=1.0.154"
crossbeam-channel = "=0.5.17"
ctrlc = "=3.5.2"
log = "=0.4.35"
nix = { version = "=0.31.3", features = ["signal", "process"] }
dialoguer = "=0.12.0"
console = "=0.16.6"
indicatif = "=0.18.6"
fd-lock = "=4.0.4"
once_cell = "=1.21.4"
rpassword = "=7.5.4"
headless_chrome = { version = "=1.0.22", default-features = false, features = ["offline"] }
