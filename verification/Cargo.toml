[package]
name = "osc_variant"
version = "0.1.0"
edition = "2021"
publish = false

[dependencies]
sha2 = "*"
base16ct = { version = "*", features = ["alloc"] }
clap = { version = "*", features = ["derive"] }
clap_complete = "*"
console = "*"
dialoguer = "*"
quick-xml = { version = "*", features = ["serialize"] }
serde = { version = "*", features = ["derive"] }
serde_yaml = "*"
