[package]
name = "job_tracker"
version = "0.1.0"
edition = "2021"
publish = false

[dependencies]
sanitize_html = "*"
uuid = { version = "*", features = ["v4"] }
chrono = "*"
diesel = { version = "*", features = ["postgres"] }
dotenvy = "*"
actix-web = "*"
actix-cors = "*"
serde = { version = "*", features = ["derive"] }
