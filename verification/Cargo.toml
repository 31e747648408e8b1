[package]
name = "magnetite"
version = "0.1.0"
edition = "2021"
publish = false

[dependencies]
chrono = { version = "*", default-features = false, features = ["std", "clock"] }
uuid = "*"
tokio = { version = "*", features = ["rt-multi-thread", "macros", "sync", "time", "signal"] }
tokio-util = { version = "*", features = ["rt"] }
sqlx = { version = "*", default-features = false, features = ["runtime-tokio", "postgres", "chrono", "uuid"] }
actix-web = { version = "*", default-features = false, features = ["macros"] }
color-eyre = "*"
colored = "*"
dotenvy = "*"
