[package]
name = "card_wallet"
version = "0.1.0"
edition = "2021"
publish = false

[dependencies]
argon2 = "=0.5.3"
base64 = "=0.22.1"
bigdecimal = { version = "=0.4.11", features = ["serde"] }
hex = "=0.4.3"
hmac = "=0.12.1"
sha2 = "=0.10.9"
uuid = { version = "=1.29.1", features = ["v4", "serde"] }
regex = "=1.13.1"
qrcode = "=0.14.1"
image = { version = "=0.25.10", default-features = false, features = ["png"] }
serde = { version = "=1.0.229", features = ["derive"] }
chrono = { version = "=0.4.45", features = ["serde"] }
sqlx = { version = "=0.8.6", default-features = false, features = ["runtime-tokio", "postgres", "uuid", "chrono", "bigdecimal", "macros"] }
axum = "=0.7.9"
tokio = { version = "=1.54.1", features = ["full"] }
tower-http = { version = "=0.6.11", features = ["cors", "trace"] }
aws-config = "=1.13.0"
aws-sdk-s3 = "=1.157.0"
dotenv = "=0.15.0"
tracing-subscriber = "=0.3.23"
validator = { version = "=0.18.1", features = ["derive"] }
once_cell = "=1.21.4"
async-trait = "=0.1.92"
jsonwebtoken = "9"
