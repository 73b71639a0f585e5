[package]
name = "shadcnui_maud"
version = "0.1.0"
edition = "2021"
publish = false

[dependencies]
argh = "0.1"
axum = { version = "0.7", features = ["multipart"] }
flate2 = "1"
maud = { version = "0.26", features = ["axum"] }
tokio = { version = "1", features = ["macros", "net", "rt-multi-thread", "time"] }
tower-http = { version = "0.5", features = ["fs"] }
ureq = "2"
