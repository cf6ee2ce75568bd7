//! Built-in control nodes.

pub mod if_then_else;
pub mod fallback;
pub mod sequence;
pub mod sequence_with_memory;
pub mod reactive_fallback;
pub mod reactive_sequence;
pub mod while_do_else;
pub mod parallel;
pub mod parallel_all;
