[package]
name = "crud_table"
version = "0.1.0"
edition = "2021"
publish = false

[dependencies]
Inflector = "*"
sqlx = { version = "*", default-features = false, features = ["postgres", "runtime-tokio"] }
