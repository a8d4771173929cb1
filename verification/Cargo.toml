[package]
name = "pickup_auth"
version = "0.1.0"
edition = "2021"
publish = false

[dependencies]
actix-cors = "*"
actix-web = { version = "4", default-features = false, features = ["macros"] }
actix-web-httpauth = "*"
actix-web-lab = "*"
chrono = "0.4"
dotenvy = "0.15"
owo-colors = "*"
rand = "0.8"
regex = "1"
rust-argon2 = "2"
serde = { version = "1", features = ["derive"] }
sha256 = { version = "1", default-features = false }
sqlx = { version = "0.8", default-features = false, features = ["mysql", "runtime-tokio", "chrono", "derive"] }
