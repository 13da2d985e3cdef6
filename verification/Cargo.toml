[package]
name = "restaurant_orders"
version = "0.1.0"
edition = "2021"
publish = false

[dependencies]
actix-web = { version = "4", default-features = false, features = ["macros"] }
chrono = { version = "0.4", features = ["serde"] }
env_logger = "*"
envy = "*"
rand = "0.8"
reqwest = { version = "*", default-features = false, features = ["blocking", "json"] }
serde = { version = "1", features = ["derive"] }
sqlx = { version = "0.8", default-features = false, features = ["postgres", "runtime-tokio", "chrono", "derive"] }
utoipa = { version = "*", features = ["actix_extras", "chrono"] }
utoipa-swagger-ui = { version = "*", features = ["actix-web", "vendored"] }
