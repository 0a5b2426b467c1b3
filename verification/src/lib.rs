//! Customer registry served over RPC: the data model, the rules of the
//! record store, and the paginated listing protocol that streams the
//! registry page by page.
//!
//! Everything here works on plain values. Connections, channels and the
//! transport live outside; they perform the actions that this library
//! decides on and report back what happened.

pub mod client;
pub mod config;
pub mod controller;
pub mod erro;
pub mod model;
pub mod proto;
pub mod service;

pub use proto::{ClientePageResponse, ClienteResponse, IdClienteRequest, NovoClienteRequest};
