[package]
name = "typed_routes"
version = "0.1.0"
edition = "2021"
publish = false

[dependencies]
axum = "0.5"
hyper = "0.14"
async-trait = "*"
serde = { version = "*", features = ["derive"] }
serde_json = "*"
utoipa = "4"
eyre = "*"
color-eyre = "*"
tracing-subscriber = { version = "*", features = ["env-filter"] }
sqlx = { version = "*", default-features = false, features = ["runtime-tokio", "postgres"] }
