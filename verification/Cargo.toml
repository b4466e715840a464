[package]
name = "correction_pipeline"
version = "0.1.0"
edition = "2021"
publish = false

[dependencies]
anyhow = "*"
arboard = { version = "*", default-features = false }
dotenvy = "*"
futures = "*"
genai = "*"
inputbot = "*"
rustautogui = { version = "*", default-features = false }
tokio = { version = "*", default-features = false, features = ["macros", "rt", "sync", "time"] }
