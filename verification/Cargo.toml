[package]
name = "streaksaver"
version = "0.1.0"
edition = "2021"
publish = false

[dependencies]
thirtyfour_sync = "0.27"
diesel = { version = "1.4", features = ["sqlite"] }
diesel_migrations = "1.4"
dotenv = "0.15"
tracing = "0.1"
tracing-subscriber = { version = "0.3", features = ["env-filter"] }
