pub mod config;
pub mod content;
pub mod kafka;
pub mod runner;
pub mod units;
