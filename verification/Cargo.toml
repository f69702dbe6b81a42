[package]
name = "tamanduauth"
version = "0.1.0"
edition = "2021"
publish = false

[dependencies]
uuid = { version = "=1.29.1", features = ["v4"] }
bcrypt = "=0.19.3"
jwt-simple = { version = "=0.15.0", default-features = false, features = ["pure-rust"] }
serde = { version = "=1.0.229", features = ["derive"] }
warp = { version = "=0.3.7", default-features = false }
tokio = { version = "=1.54.1", features = ["macros", "rt-multi-thread"] }
sqlx = { version = "=0.8.6", default-features = false, features = ["postgres", "runtime-tokio", "uuid", "time"] }
lettre = { version = "=0.11.23", default-features = false, features = ["builder", "smtp-transport", "tokio1"] }
color-eyre = { version = "=0.6.5", default-features = false }
dotenv = "=0.15.0"
simple_logger = { version = "=5.2.0", default-features = false }
async-trait = "=0.1.92"
