[package]
name = "max44009"
version = "0.1.0"
edition = "2021"
publish = false

[dependencies]
defmt = "*"
embedded-hal-async = "1.0"
postcard = { version = "1", default-features = false, features = ["experimental-derive"] }
serde = { version = "1", default-features = false, features = ["derive"] }
thiserror = { version = "2", default-features = false }
