[package]
name = "spaced"
version = "0.1.0"
edition = "2021"
publish = false

[dependencies]
activitypub_federation = { version = "0.4", default-features = false, features = ["axum"] }
actix-rt = "2"
anyhow = "1"
async-trait = "0.1"
axum = "0.6"
chrono = "0.4"
diesel = { version = "2", features = ["postgres", "chrono"] }
dotenvy = "0.15"
serde = { version = "1", features = ["derive"] }
tracing = "0.1"
tracing-subscriber = { version = "0.3", features = ["env-filter"] }
url = "2"
