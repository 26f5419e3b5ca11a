[package]
name = "apm_counter"
version = "0.1.0"
edition = "2021"
publish = false

[dependencies]
eframe = { version = "0.22", default-features = false, features = ["default_fonts", "glow"] }
rdev = "0.5"
tokio = { version = "1", features = ["macros", "rt-multi-thread"] }
