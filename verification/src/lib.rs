//! # Armature Azure
//!
//! Microsoft Azure services integration: configuration, the container of service clients, and a
//! client for Service Bus over its REST API.
//!
//! The library decides and computes; it performs no I/O. It says which clients to build and which
//! requests to send, and takes what came back. Every decision has a contract that is proved, and
//! [`laws`] states what holds of the library as a whole.
//!
//! ```ignore
//! use armature_azure::{AzureConfig, ServiceBusClient};
//!
//! let config = AzureConfig::builder()
//!     .storage_account("mystorageaccount")
//!     .enable_blob()
//!     .build();
//!
//! let client = ServiceBusClient::new("mybus", "policy", "key");
//! let queue = client.queue_if_room("orders").expect("room")?;
//! let request = queue.send_message("hello", None, now)?;
//! ```
pub mod config;
pub mod encoding;
pub mod error;
pub mod headers;
pub mod laws;
pub mod names;
pub mod servicebus;
pub mod services;
pub mod text;
pub mod uri;

pub use config::{AzureConfig, AzureConfigBuilder, CredentialsSource};
pub use error::{AzureError, Result};
pub use servicebus::client::{ServiceBusClient, ServiceBusServiceConfig};
pub use services::AzureServices;
