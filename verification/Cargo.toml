[package]
name = "rest_api"
version = "0.1.0"
edition = "2021"
publish = false

[dependencies]
rocket = { version = "*", features = ["json"] }
diesel = { version = "*", features = ["postgres"] }
rocket_sync_db_pools = { version = "*", features = ["diesel_postgres_pool"] }
