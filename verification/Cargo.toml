[package]
name = "leptos_pavex"
version = "0.1.0"
edition = "2021"
publish = false

[dependencies]
any_spawner = { version = "0.2", features = ["tokio"] }
bytes = "1"
futures = "0.3"
http = "1"
leptos = { version = "0.7", features = ["ssr"] }
leptos_integration_utils = "0.7"
leptos_meta = { version = "0.7", features = ["ssr"] }
leptos_router = { version = "0.7", features = ["ssr"] }
mime_guess = "2"
pavex = "0.1"
tracing = "0.1"
typed-builder = "*"
