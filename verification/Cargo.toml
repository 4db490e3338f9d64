[package]
name = "property_admin"
version = "0.1.0"
edition = "2021"
publish = false

[dependencies]
serde_json = "=1.0.154"
serde = { version = "=1.0.229", features = ["derive"] }
axum = "=0.8.9"
sqlx = { version = "=0.8.6", default-features = false, features = ["postgres", "runtime-tokio", "uuid", "json", "chrono"] }
tokio = { version = "=1.54.1", features = ["fs", "macros", "rt"] }
uuid = { version = "=1.29.0", features = ["serde"] }
tracing = "=0.1.44"
thiserror = "=2.0.21"
anyhow = "=1.0.104"
async-trait = "=0.1.92"
chrono = "=0.4.45"
printpdf = { version = "=0.7.0", features = ["embedded_images"] }
image = "=0.24.9"
