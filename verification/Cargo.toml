[package]
name = "git-events-runner"
version = "0.4.8"
edition = "2021"
publish = false

[dependencies]
anyhow = "=1.0.104"
axum = "=0.7.9"
axum-server = { version = "=0.7.3", features = ["tls-rustls"] }
chrono = "=0.4.45"
clap = { version = "=4.6.7", features = ["derive", "env"] }
futures = "=0.3.34"
git2 = { version = "=0.20.4", features = ["vendored-libgit2", "vendored-openssl"] }
globwalk = "=0.9.1"
hex = "=0.4.3"
humantime = "=2.4.0"
k8s-openapi = { version = "=0.24.0", features = ["latest", "schemars"] }
kube = { version = "=0.99.0", features = ["runtime", "derive", "client"] }
kube-lease-manager = "=0.8.0"
prometheus = "=0.14.0"
rand = "=0.8.8"
regex = "=1.13.1"
rustls = "=0.23.46"
rustls-native-certs = "=0.7.3"
rustls-pemfile = "2"
sacs = { version = "=0.8.2", features = ["tz"] }
schemars = "=0.8.22"
serde = { version = "=1.0.229", features = ["derive"] }
serde_json = "=1.0.154"
serde_yaml = "0.9"
sha2 = "=0.10.9"
tokio = { version = "=1.54.1", features = ["full"] }
tower_governor = { version = "=0.4.3", features = ["tracing"] }
tracing = "=0.1.44"
tracing-subscriber = { version = "=0.3.23", features = ["env-filter", "json"] }
uuid = { version = "=1.29.0", features = ["v4"] }
