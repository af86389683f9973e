[package]
name = "gfycat_transfer"
version = "0.1.0"
edition = "2021"
publish = false

[dependencies]
bytes = "1"
config = { version = "0.13", default-features = false }
dotenv = "0.15"
reqwest = { version = "0.11", features = ["json"] }
rpassword = "7"
secrecy = { version = "0.8", features = ["serde"] }
serde = { version = "1", features = ["derive"] }
serde_json = { version = "1", features = ["preserve_order"] }
tokio = { version = "1", features = ["macros", "rt-multi-thread"] }
