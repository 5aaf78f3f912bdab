[package]
name = "spellbook_api"
version = "0.1.0"
edition = "2021"
publish = false

[dependencies]
axum = "0.7"
diesel = { version = "2", features = ["postgres"] }
dotenvy = "0.15"
nanoid = "0.4"
serde = { version = "1", features = ["derive"] }
tokio = { version = "1", features = ["macros", "net", "rt-multi-thread"] }
tower-http = { version = "0.5", features = ["cors"] }
uuid = { version = "1", features = ["v4"] }

[dev-dependencies]
regex = "1"
