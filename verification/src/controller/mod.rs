//! The rules of the record store.

pub mod cliente;
