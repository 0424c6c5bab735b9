//! Stores that back the storage interfaces.

pub mod in_memory;
