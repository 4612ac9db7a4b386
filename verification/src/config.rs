//! The configuration the core is started with.
pub mod base;
