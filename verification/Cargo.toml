[package]
name = "api-version"
version = "0.1.0"
edition = "2021"
publish = false

[dependencies]
array-macro = "*"
axum = "*"
axum-extra = { version = "*", features = ["typed-header"] }
futures = "*"
thiserror = "*"
tower = "*"
tracing = "*"

[dev-dependencies]
regex = "*"
