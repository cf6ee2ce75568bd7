//! Support for loading component libraries.

pub mod error;
pub mod lib_manager;
pub mod component_register;
