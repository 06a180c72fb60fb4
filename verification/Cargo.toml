[package]
name = "spa_assets"
version = "0.1.0"
edition = "2021"
publish = false

[dependencies]
anyhow = "=1.0.104"
axum = "=0.7.9"
dotenvy = "=0.15.7"
mime_guess = "=2.0.4"
rust-embed = { version = "=8.13.0", features = ["interpolate-folder-path"] }
sqlx = { version = "=0.8.6", default-features = false, features = ["runtime-tokio", "sqlite"] }
tokio = { version = "=1.54.1", features = ["macros", "rt-multi-thread", "net", "time"] }
tower-http = { version = "=0.5.2", features = ["fs", "compression-br", "set-header"] }
