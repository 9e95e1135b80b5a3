pub mod behaviour;
pub mod contract;
pub mod laws;
pub mod penalty;
pub mod types;
