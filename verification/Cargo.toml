[package]
name = "preview_core"
version = "0.1.0"
edition = "2021"
publish = false

[dependencies]
egui = "=0.22.0"
typst = "=0.11.1"
comemo = "=0.4.0"

[dev-dependencies]
typst-assets = { version = "=0.11.1", features = ["fonts"] }
