[package]
name = "dioxus_codemirror"
version = "0.1.0"
edition = "2021"
publish = false

[dependencies]
dioxus = { version = "0.7", default-features = false, features = ["macro", "html", "signals", "hooks", "document", "asset", "launch"] }
futures = "0.3"
regex = "1"
serde = { version = "1", features = ["derive"] }
serde_json = "1"
ureq = "2"
