[package]
name = "template_app"
version = "0.1.0"
edition = "2021"
publish = false

[dependencies]
short-crypt = "=1.0.30"
eframe = { version = "=0.17.0", default-features = false, features = ["default_fonts", "egui_glium", "persistence"] }
poll-promise = "=0.1.0"
serde = { version = "=1.0.229", features = ["derive"] }
serenity = { version = "=0.10.10", default-features = false, features = ["client", "gateway", "model", "rustls_backend"] }
tokio = { version = "=1.54.1", features = ["rt", "net", "time"] }
