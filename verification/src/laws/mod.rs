//! What holds of the library as a whole.

pub mod effects;
pub mod executor;
pub mod ids;
pub mod join;
pub mod ready;
pub mod run;
pub mod tasks;
pub mod yields;
