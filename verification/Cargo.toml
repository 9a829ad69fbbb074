[package]
name = "swagger_ui_dist"
version = "0.1.0"
edition = "2021"
publish = false

[dependencies]
axum = "=0.8.9"
actix-web = "*"
