[package]
name = "tabletop"
version = "0.1.0"
edition = "2021"
publish = false

[dependencies]
chrono = { version = "0.4", default-features = false, features = ["clock", "serde", "std"] }
enum-utils = "*"
flurry = "*"
rand = "0.8"
rocket = { version = "0.5", features = ["json"] }
rocket_auth = { version = "*", default-features = false }
rocket_db_pools = { version = "*", features = ["sqlx_mysql"] }
rocket_dyn_templates = { version = "*", features = ["tera"] }
serde = { version = "1", features = ["derive"] }
serde_repr = "0.1"
sqlx = { version = "0.7", default-features = false, features = ["mysql"] }
