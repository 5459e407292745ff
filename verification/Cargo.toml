[package]
name = "bw_ssh_agent"
version = "0.1.0"
edition = "2021"
publish = false

[dependencies]
base64 = "=0.22.1"
aes = "=0.8.4"
cbc = "=0.1.2"
hmac = "=0.12.1"
sha2 = "=0.10.9"
hkdf = "=0.12.4"
pbkdf2 = "=0.12.2"
rsa = "=0.9.10"
sha1 = "=0.10.7"
rand = "=0.8.8"
ctutils = "=0.4.8"
tokio = { version = "=1.54.1", features = ["macros", "rt-multi-thread", "net", "time", "signal", "sync", "fs", "process"] }
reqwest = { version = "=0.12.28", default-features = false, features = ["json", "rustls-tls"] }
serde = { version = "=1.0.229", features = ["derive"] }
serde_json = "=1.0.154"
serde_with = { version = "=3.24.0", features = ["base64"] }
url = "=2.5.8"
clap = { version = "=4.6.7", features = ["derive"] }
dialoguer = "=0.12.0"
log = "=0.4.35"
simple_logger = "=5.2.0"
secret-service = { version = "=5.2.0", features = ["rt-tokio-crypto-rust"] }
zbus = { version = "=5.19.0", default-features = false, features = ["tokio"] }
futures = "=0.3.34"
ssh-agent-lib = "=0.6.0"
signature = "=2.2.0"
libsystemd = "=0.7.2"
dirs-next = "=2.0.0"
anyhow = "=1.0.104"
thiserror = "=2.0.21"
