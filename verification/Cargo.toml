[package]
name = "mainframe"
version = "0.1.0"
edition = "2021"
publish = false

[dependencies]
base64 = "0.22"
data-encoding = "2"
ring = "0.17"
chrono = "0.4"
serde_json = "1"
rocket = "0.5.1"
rocket_db_pools = { version = "0.2", features = ["sqlx_sqlite"] }
rocket_dyn_templates = { version = "0.2", features = ["handlebars"] }
rocket-multipart-form-data = "0.10"
sqlx = { version = "0.7", default-features = false, features = ["sqlite", "macros", "runtime-tokio"] }
