[package]
name = "armature_azure"
version = "0.1.0"
edition = "2021"
publish = false

[dependencies]
azure_core = "=1.1.0"
azure_data_cosmos = "=0.36.0"
azure_identity = "=1.0.0"
azure_security_keyvault_secrets = "=1.0.1"
azure_storage_blob = "=1.1.0"
azure_storage_queue = "=1.1.0"
base64 = "=0.22.1"
hmac = "=0.13.0"
httpdate = "=1.0.3"
parking_lot = "0.12"
reqwest = { version = "=0.13.5", default-features = false }
serde = { version = "1", features = ["derive"] }
serde_json = "=1.0.154"
sha2 = "=0.11.1"
thiserror = "2"
tracing = "0.1"
url = "=2.5.8"
