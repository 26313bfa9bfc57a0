[package]
name = "audiothek_feed"
version = "0.1.0"
edition = "2021"
publish = false

[dependencies]
anyhow = "*"
atom_syndication = "*"
axum = "*"
chrono = "*"
graphql_client = "*"
reqwest = { version = "*", default-features = false, features = ["json"] }
serde = { version = "*", features = ["derive"] }
serde_json = "*"
tera = "*"
tokio = { version = "*", features = ["macros", "rt-multi-thread"] }
url = "*"
