//! What the service decides for each request it answers.

pub mod clientes;
pub mod db;
pub mod listing;
pub mod stream;
