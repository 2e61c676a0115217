[package]
name = "encurtador"
version = "0.1.0"
edition = "2021"
publish = false

[dependencies]
base62 = "=2.2.6"
chrono = "=0.4.45"
uuid = { version = "=1.29.1", features = ["v4"] }
validator = { version = "=0.16.1", features = ["derive"] }
diesel = { version = "=2.3.14", features = ["postgres", "uuid", "chrono"] }
diesel_migrations = "=2.3.2"
dotenv = "=0.15.0"
env_logger = "=0.10.2"
log = "=0.4.35"
futures = "=0.3.34"
gotham = "=0.7.4"
gotham_derive = "=0.7.1"
gotham_restful = { version = "=0.8.5", default-features = false, features = ["cors", "errorlog", "database", "openapi"] }
gotham_middleware_diesel = "=0.5.1"
openapi_type = "=0.4.3"
serde = { version = "=1.0.229", features = ["derive"] }
serde_derive = "=1.0.229"
tokio = { version = "=1.54.1", features = ["macros", "rt-multi-thread", "signal"] }

[dev-dependencies]
proptest = "=1.12.0"
