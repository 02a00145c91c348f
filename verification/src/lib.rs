//! The task executor of a deterministic simulator.

pub mod executor;
pub mod id;
pub mod info;
pub mod join;
pub mod laws;
pub mod model;
pub mod rng;
pub mod tasks;
pub mod time;
pub mod yields;
