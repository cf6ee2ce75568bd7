//! Support for building communication components.

pub mod error;
