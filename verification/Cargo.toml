[package]
name = "activity_invites"
version = "0.1.0"
edition = "2021"
publish = false

[dependencies]
ed25519-dalek = "1"
hex = "*"
serde = { version = "*", features = ["derive"] }
serde_json = "*"
serde_repr = "*"
reqwest = { version = "*", default-features = false, features = ["json"] }
