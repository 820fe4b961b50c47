[package]
name = "agentbox"
version = "0.1.0"
edition = "2021"
publish = false

[dependencies]
camino = "1"
clap = { version = "4", features = ["derive"] }
directories = "*"
serde = { version = "1", features = ["derive"] }
serde_json = "1"
sha2 = "0.10"
tempfile = "3"
time = { version = "0.3", features = ["macros", "formatting"] }
