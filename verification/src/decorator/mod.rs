//! Built-in decorator nodes.

pub mod force_failure;
pub mod force_success;
pub mod inverter;
pub mod keep_running_until_failure;
pub mod repeat;
pub mod retry;
pub mod retry_until_successful;
pub mod run_once;
