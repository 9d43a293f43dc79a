[package]
name = "clubsite"
version = "0.1.0"
edition = "2021"
publish = false

[dependencies]
argon2rs = "=0.2.5"
rand = "=0.8.8"
pulldown-cmark = "=0.13.6"
chrono = "=0.4.45"
serde = { version = "=1.0.229", features = ["derive"] }
serde_derive = "=1.0.229"
serde_json = "=1.0.154"
tera = "=1.20.1"
reqwest = { version = "=0.13.5", default-features = false, features = ["blocking", "json"] }
diesel = { version = "=2.3.14", features = ["mysql", "r2d2", "chrono"] }
dotenv = "=0.15.0"
r2d2 = "=0.8.10"
rocket = { version = "=0.5.2", features = ["secrets"] }
rocket_dyn_templates = { version = "=0.2.0", features = ["tera"] }
