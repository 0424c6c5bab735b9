//! The commands offered to callers.

pub mod service;
