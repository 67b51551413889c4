[package]
name = "graphql_gateway"
version = "0.1.0"
edition = "2021"
publish = false

[dependencies]
bytes = "=1.12.1"
dotenvy = "=0.15.7"
http = "=1.5.0"
http-body-util = "=0.1.5"
juniper = { version = "=0.17.1", features = ["expose-test-schema"] }
log = "=0.4.34"
mysql = "=28.0.4"
rapina = "=0.13.1"
serde = { version = "=1.0.229", features = ["derive"] }
serde_json = "=1.0.154"
tokio = { version = "=1.54.1", features = ["macros", "rt-multi-thread"] }
