[package]
name = "recipe_routes"
version = "0.1.0"
edition = "2021"
publish = false

[dependencies]
bson = "*"
actix-web = { version = "*", default-features = false, features = ["macros"] }
serde = { version = "*", features = ["derive"] }
