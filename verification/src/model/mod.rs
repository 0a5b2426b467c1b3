//! The entities of the registry as the database holds them.

pub mod cliente;
