[package]
name = "d2_stash_tracker"
version = "0.1.0"
edition = "2021"
publish = false

[dependencies]
chrono = "0.4"
diesel = { version = "2", features = ["sqlite", "r2d2", "chrono", "returning_clauses_for_sqlite_3_35"] }
diesel_migrations = "2"
env_logger = "0.10"
log = "0.4"
nom = "7"
serde = { version = "1", features = ["derive"] }
serde_json = "1"
serde_repr = "0.1"
