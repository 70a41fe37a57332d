[package]
name = "docrender"
version = "0.1.0"
edition = "2021"
publish = false

[dependencies]
ammonia = "=4.2.4"
anyhow = "=1.0.104"
aws_lambda_events = { version = "=0.15.1", default-features = false, features = ["apigw"] }
axum = { version = "=0.7.9", features = ["macros"] }
axum-extra = { version = "=0.9.6", features = ["cookie"] }
base64 = "=0.22.1"
chrono = { version = "=0.4.45", features = ["serde"] }
gray_matter = "=0.2.9"
http = "=1.5.0"
inkjet = { version = "=0.10.5", default-features = false, features = ["html", "all_languages"] }
lambda_runtime = "0.13"
maud = { version = "=0.26.0", features = ["axum"] }
pulldown-cmark = { version = "=0.11.3", default-features = false, features = ["html"] }
serde = { version = "=1.0.229", features = ["derive"] }
serde_html_form = "=0.2.8"
serde_json = "=1.0.154"
tailwind_fuse = "=0.3.2"
thiserror = "=1.0.69"
time = { version = "=0.3.55", features = ["serde-well-known"] }
tokio = { version = "=1.54.1", features = ["rt-multi-thread", "macros", "net"] }
tracing = "0.1"
tracing-subscriber = "0.3"
tower-http = { version = "=0.5.2", features = ["fs", "compression-br", "compression-deflate", "compression-gzip", "compression-zstd"] }
