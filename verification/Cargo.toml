[package]
name = "datum_connect"
version = "0.1.0"
edition = "2021"
publish = false

[dependencies]
arc-swap = "=1.9.3"
base64 = "=0.22.1"
bytes = "=1.12.1"
chrono = { version = "=0.4.45", default-features = false, features = ["std", "clock"] }
clap = { version = "=4.6.7", default-features = false, features = ["std", "derive", "env", "help", "usage", "error-context"] }
gethostname = "=1.1.0"
hickory-resolver = { version = "=0.25.2", default-features = false, features = ["tokio", "system-config"] }
http = "=1.5.0"
http-body-util = "=0.1.5"
inquire = { version = "=0.9.4", default-features = false, features = ["crossterm"] }
iroh-base = { version = "1.4", default-features = false, features = ["key"] }
k8s-openapi = { version = "=0.26.1", features = ["latest"] }
kube = { version = "=2.0.1", features = ["client", "derive", "rustls-tls"], default-features = false }
rand = "=0.9.5"
reqwest = { version = "=0.12.28", default-features = false, features = ["rustls-tls", "json"] }
rustls = { version = "=0.23.46", default-features = false, features = ["ring", "std"] }
secrecy = "=0.10.3"
serde = { version = "=1.0.229", features = ["derive"] }
serde_json = "=1.0.154"
serde_yml = "=0.0.12"
tokio = { version = "=1.54.1", features = ["rt-multi-thread", "macros", "sync", "time", "process", "io-util", "signal", "net", "fs"] }
tokio-util = "=0.7.20"
tower = { version = "=0.5.3", features = ["util"] }
tracing = "=0.1.44"
tracing-subscriber = { version = "=0.3.23", features = ["env-filter"] }
tun = { version = "=0.8.14", features = ["async"] }
url = "=2.5.8"
