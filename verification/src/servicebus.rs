//! Azure Service Bus over the Service Bus REST API.
//!
//! Requests go straight to `https://<namespace>.servicebus.windows.net` and carry a Shared Access
//! Signature (SAS) made for each request from a policy name and its key. Error texts hold the
//! method, path and status and the start of the response, never a signature, and a signature goes
//! to the configured endpoint alone.
//!
//! [`client::ServiceBusClient`] belongs to a namespace and gives out a client for each queue and
//! topic. Requests are prepared here and sent by the caller, who hands back what came in.
pub mod client;
pub mod clients;
pub mod entity;
pub mod message;
pub mod request;
pub mod response;
