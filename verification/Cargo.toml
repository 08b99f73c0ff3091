[package]
name = "metallian_photos"
version = "0.1.0"
edition = "2021"
publish = false

[dependencies]
actix-web = "4"
actix-identity = "0.8"
actix-session = { version = "0.10", features = ["cookie-session"] }
actix-multipart = "0.7"
actix-files = "0.6"
actix-cors = "0.7"
sqlx = { version = "0.8", default-features = false, features = ["sqlite", "runtime-tokio", "macros", "migrate"] }
tokio = { version = "1", features = ["macros", "rt-multi-thread"] }
tera = { version = "1", default-features = false }
serde = { version = "1", features = ["derive"] }
serde_json = "1"
uuid = { version = "1", features = ["v4", "serde"] }
bytes = "1"
datastar = "*"
opendal = { version = "*", default-features = false, features = ["services-s3"] }
secrecy = "0.10"
tracing = "0.1"
tracing-actix-web = "0.7"
async-trait = "0.1"
anyhow = "1"
thiserror = "2"
dotenvy = "0.15"
heic = "*"
image = { version = "0.25", default-features = false, features = ["jpeg"] }
kamadak-exif = "0.6"
