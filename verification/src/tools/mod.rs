//! The tool catalog, its argument and result records, the dispatcher and
//! the executors.

pub mod executor;
pub mod executors;
pub mod registry;
pub mod schemas;
pub mod types;
