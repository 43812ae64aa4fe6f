[package]
name = "cartences"
version = "0.1.0"
edition = "2021"
publish = false

[dependencies]
bcrypt = "=0.19.3"
jsonwebtoken = { version = "*", default-features = false, features = ["rust_crypto"] }
serde_json = "=1.0.151"
serde = { version = "*", features = ["derive"] }
warp = { version = "*", features = ["server"] }
sqlx = { version = "*", features = ["mysql", "runtime-tokio", "chrono"] }
tokio = { version = "*", features = ["macros", "rt-multi-thread"] }
chrono = { version = "*", features = ["serde"] }
uuid = { version = "*", features = ["v4"] }
config = "*"
