pub mod config;
pub mod cycle;
pub mod elevation;
pub mod hosts;
pub mod schedule;
pub mod state;
