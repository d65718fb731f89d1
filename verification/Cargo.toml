[package]
name = "registration"
version = "0.1.0"
edition = "2021"
publish = false

[dependencies]
rusqlite = { version = "=0.40.2", features = ["bundled"] }
rust-ini = "=0.21.3"
lettre = { version = "=0.11.23", default-features = false, features = ["smtp-transport", "builder"] }
iron = "=0.6.1"
router = "=0.6.0"
mount = "=0.4.0"
staticfile = "=0.5.0"
handlebars-iron = "=0.29.0"
params = "=0.8.0"
plugin = "=0.2.6"
persistent = "=0.4.0"
log = "=0.4.34"
simplelog = "=0.12.2"
chrono = "=0.4.45"
