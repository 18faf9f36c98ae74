[package]
name = "deadpool_redis_cluster"
version = "0.1.0"
edition = "2021"
publish = false

[dependencies]
deadpool = { version = "0.9", default-features = false, features = ["managed", "rt_tokio_1"] }
redis = { version = "0.21", default-features = false, features = ["cluster"] }
