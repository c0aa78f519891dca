[package]
name = "sensor_data_server"
version = "0.1.0"
edition = "2021"
publish = false

[dependencies]
actix-rt = "2"
actix-web = { version = "4", default-features = false, features = ["macros"] }
anyhow = "1"
bigdecimal = "0.4"
chrono = { version = "0.4", features = ["serde"] }
dotenvy = "0.15"
fern = "0.7"
lettre = { version = "0.11", default-features = false, features = ["builder", "smtp-transport", "rustls-tls"] }
log = "0.4"
rumqttc = { version = "0.24", default-features = false }
serde = { version = "1", features = ["derive"] }
serde_json = "1"
sqlx = { version = "0.8", default-features = false, features = ["runtime-tokio", "postgres", "chrono", "bigdecimal"] }
tokio = { version = "1", features = ["rt", "macros", "sync"] }
toml = "0.8"
