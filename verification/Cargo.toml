[package]
name = "pqsp"
version = "0.1.0"
edition = "2021"
publish = false

[dependencies]
sha3 = "0.10"
chacha20poly1305 = "0.10"
rand_core = { version = "0.6", features = ["getrandom"] }
secrecy = "0.10"
zeroize = "1"
bytes = "1"
serde = { version = "1", features = ["derive"] }
serde_json = "1"
hex = "0.4"
thiserror = "1"
async-trait = "0.1"
clap = { version = "4", features = ["derive"] }
colored = "2"
dotenv = "0.15"
indicatif = "0.17"
tokio = { version = "1", features = ["macros", "rt-multi-thread"] }
reqwest = { version = "0.12", default-features = false, features = ["rustls-tls"] }
tempfile = "3"
ethers = { version = "2", default-features = false }
