[package]
name = "codepaste"
version = "0.1.0"
edition = "2021"
publish = false

[dependencies]
rand = "=0.8.8"
syntect = { version = "=5.3.0", default-features = false, features = ["default-fancy"] }
worker = "=0.0.12"
http = "=0.2.12"
serde = { version = "=1.0.229", features = ["derive"] }
console_error_panic_hook = "=0.1.7"
# Not named in the code. The macros of worker need syn 1 with its "full"
# feature, and this release of async-trait is what switches it on.
async-trait = "=0.1.64"
