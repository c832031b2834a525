[package]
name = "utoipa_helper"
version = "0.1.0"
edition = "2021"
publish = false

[dependencies]
axum = "*"
utoipa = "*"
serde = "*"
serde_json = "*"
