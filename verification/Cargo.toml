[package]
name = "ghostgit"
version = "0.1.0"
edition = "2021"
publish = false

[dependencies]
git2 = { version = "0.20", default-features = false }
serde = { version = "1", features = ["derive"] }
reqwest = { version = "0.12", default-features = false, features = ["json"] }
