//! Behavior-tree nodes, factory support and agent helpers of `DiMAS`,
//! with their tick logic stated as verified state machines.

pub mod status;
pub mod step;
pub mod blackboard;
pub mod registry;
pub mod error;
pub mod builtin;
pub mod factory;
pub mod xml_parser;
pub mod behavior;
pub mod control;
pub mod decorator;
pub mod index_set;
pub mod halting;
pub mod run;
pub mod run_reactive;
pub mod run_decorator;
pub mod run_parallel;
pub mod cross_door;
pub mod leaves;
pub mod builder_states;
pub mod text;
pub mod xml;
pub mod utils;
pub mod builder;
