[package]
name = "karcis"
version = "0.1.0"
edition = "2021"
publish = false

[dependencies]
actix-cors = "*"
actix-multipart = "*"
actix-web = "*"
bcrypt = "*"
chrono = "*"
dotenv = "*"
futures-util = "*"
jsonwebtoken = "*"
lettre = "*"
rand = "*"
serde = { version = "*", features = ["derive"] }
serde_json = "*"
sqlx = { version = "*", features = ["postgres", "runtime-tokio", "chrono"] }
tokio = { version = "*", features = ["fs", "io-util"] }
