[package]
name = "metrocast"
version = "0.1.0"
edition = "2021"
publish = false

[dependencies]
axum = "=0.7.9"
chrono = { version = "=0.4.45", features = ["serde"] }
ndarray = "=0.16.1"
ort = { version = "=2.0.0-rc.9", default-features = false, features = ["ndarray", "load-dynamic"] }
# Not used directly. ort 2.0.0-rc.9 asks for ort-sys "2.0.0-rc.9", which cargo
# resolves to a later release candidate that it does not compile against, so
# the bindings are held to the release candidate that ort was written for.
ort-sys = { version = "=2.0.0-rc.9", default-features = false }
serde = { version = "=1.0.229", features = ["derive"] }
serde_json = "=1.0.154"
tokio = { version = "=1.54.1", features = ["full"] }
tower-http = { version = "=0.5.2", features = ["cors", "trace"] }
tracing-subscriber = "=0.3.23"
utoipa = { version = "=4.2.3", features = ["axum_extras", "chrono"] }
utoipa-swagger-ui = { version = "=7.1.0", features = ["axum", "vendored"] }
