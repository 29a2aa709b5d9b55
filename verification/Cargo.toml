[package]
name = "imp_geo"
version = "0.1.0"
edition = "2021"
publish = false

[dependencies]
chrono = "0.4"
clap = { version = "4", features = ["cargo"] }
csv = "1"
log = "0.4"
log4rs = "1"
serde = { version = "1", features = ["derive"] }
serde_json = "1"
sqlx = { version = "0.8", default-features = false, features = ["postgres", "runtime-tokio"] }
thiserror = "1"
tokio = { version = "1", features = ["macros", "rt"] }
toml = "0.8"
