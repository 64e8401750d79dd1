[package]
name = "fkb_repositories"
version = "0.1.0"
edition = "2021"
publish = false

[dependencies]
sqlx = { version = "0.8", default-features = false, features = ["postgres", "runtime-tokio", "uuid", "time"] }
serde_json = "1"
uuid = "1"
time = "0.3"
thiserror = "1"
async-trait = "0.1"
