[package]
name = "cruncher_runtime"
version = "0.1.0"
edition = "2021"
publish = false

[dependencies]
actix = { version = "=0.13.5", default-features = false }
actix-rt = { version = "=2.15.0", default-features = false }
actix-web = { version = "=4.18.1", default-features = false, features = ["macros"] }
anyhow = "=1.0.104"
async-trait = "=0.1.92"
chrono = { version = "=0.4.45", default-features = false, features = ["clock", "std"] }
clap = { version = "=4.6.7", default-features = false, features = ["derive", "std", "help", "usage", "error-context"] }
dotenv = "=0.15.0"
env_logger = { version = "=0.11.11", default-features = false }
futures = "=0.3.34"
log = "=0.4.34"
reqwest = { version = "=0.12.28", default-features = false, features = ["json"] }
serde = { version = "=1.0.229", features = ["derive"] }
serde_json = "=1.0.154"
tokio = { version = "=1.54.1", features = ["sync", "rt", "macros", "signal", "time"] }
ya-agreement-utils = "=0.5.0"
ya-client-model = "=0.5.0"
