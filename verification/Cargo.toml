[package]
name = "pageforge"
version = "0.1.0"
edition = "2021"
publish = false

[dependencies]
anyhow = "1"
clap = { version = "4", features = ["derive"] }
printpdf = { version = "0.7", features = ["embedded_images"] }
reqwest = { version = "0.12", default-features = false }
serde = "1"
sonic-rs = "*"
tokio = { version = "1", features = ["rt", "macros"] }
