[package]
name = "guild_welcome"
version = "0.1.0"
edition = "2021"
publish = false

[dependencies]
bytes = "=1.12.1"
csscolorparser = "=0.9.0"
serde = { version = "=1.0.229", features = ["derive"] }
serde_json = "=1.0.151"
tokio = { version = "=1.53.2", features = ["full"] }
warp = { version = "=0.4.3", features = ["multipart", "server"] }
sqlx = { version = "=0.9.0", default-features = false, features = ["runtime-tokio", "sqlite"] }
dotenv = "=0.15.0"
futures = "=0.3.34"
imgur2018 = "*"
chrono = "=0.4.45"
date_time_parser = "=0.2.0"
twilight-model = "=0.17.1"
twilight-http = "=0.17.1"
twilight-gateway = "=0.17.1"
twilight-cache-inmemory = "=0.17.1"
twilight-embed-builder = "=0.11.1"
