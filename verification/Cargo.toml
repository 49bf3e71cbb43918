[package]
name = "langkeeper"
version = "0.1.0"
edition = "2021"
publish = false

[dependencies]
chrono = { version = "=0.4.45", features = ["serde"] }
rand = "=0.8.8"
garde = { version = "=0.23.0", features = ["derive", "email"] }
maud = "=0.27.0"
bcrypt = "=0.19.3"
jsonwebtoken = "=9.3.1"
serde = { version = "=1.0.229", features = ["derive"] }
actix-web = { version = "=4.18.1", features = ["openssl"] }
actix-http = "=3.20.0"
actix-rt = "=2.15.0"
actix-files = "=0.6.10"
actix-session = { version = "=0.11.0", features = ["cookie-session"] }
actix-jobs = "=0.1.7"
diesel = { version = "=2.3.14", features = ["sqlite", "r2d2", "chrono"] }
r2d2 = "=0.8.10"
dotenvy = "=0.15.7"
colored = "=3.1.1"
derive_more = "=0.99.20"
futures = "=0.3.34"
mail-send = "=0.4.9"
openssl = "=0.10.82"
