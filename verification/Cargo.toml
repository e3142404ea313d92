[package]
name = "ldraw"
version = "0.1.0"
edition = "2021"
publish = false

[dependencies]
anyhow = "1"
directories = "5"
egui = "0.27"
egui-phosphor = "0.5"
serde = { version = "1", features = ["derive"] }
serde_json = "1"
tiny-skia = "0.11"
uuid = { version = "1", features = ["v4", "serde"] }
