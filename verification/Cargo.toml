[package]
name = "rsutil"
version = "0.1.0"
edition = "2021"
publish = false

[dependencies]
chrono = "0.4"
log = "0.4"
log4rs = { version = "1", default-features = false, features = ["console_appender", "file_appender", "pattern_encoder", "threshold_filter"] }
serde = { version = "1", features = ["derive"] }
