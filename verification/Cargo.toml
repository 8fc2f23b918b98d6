[package]
name = "weapon_catalog"
version = "0.1.0"
edition = "2021"
publish = false

[dependencies]
async-trait = "0.1"
axum = "0.7"
chrono = { version = "0.4", default-features = false, features = ["clock", "serde", "std"] }
csv = "1"
itertools = "0.13"
jsonwebtoken = { version = "9", default-features = false }
mongodb = { version = "3", default-features = false, features = ["compat-3-0-0", "rustls-tls"] }
rand = "0.8"
reqwest = { version = "0.12", default-features = false, features = ["json", "rustls-tls"] }
serde = { version = "1", features = ["derive"] }
serde_json = "1"
shuttle-runtime = { version = "0.47", default-features = false }
sqlx = { version = "0.8", default-features = false, features = ["runtime-tokio", "postgres", "uuid", "chrono", "derive"] }
strum = "0.26"
strum_macros = "0.26"
thiserror = "1"
tokio = { version = "1", features = ["macros", "rt-multi-thread", "net", "time", "sync"] }
tower-http = { version = "0.5", features = ["cors", "fs"] }
tracing = "0.1"
utoipa = "4"
