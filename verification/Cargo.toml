[package]
name = "foxess_dashboard"
version = "0.1.0"
edition = "2021"
publish = false

[dependencies]
md-5 = "*"
serde = { version = "1", features = ["derive"] }
serde_json = "1"
axum = { version = "*", default-features = false, features = ["tokio", "http1", "json"] }
tokio = { version = "1", features = ["macros", "rt-multi-thread", "time", "net"] }
reqwest = { version = "0.12", default-features = false, features = ["json", "rustls-tls"] }
tower-http = { version = "*", features = ["cors"] }
dotenvy = "*"
dioxus = { version = "*", default-features = false, features = ["macro", "html", "signals", "hooks", "launch", "asset", "web"] }
gloo-net = "*"
gloo-timers = { version = "*", features = ["futures"] }
