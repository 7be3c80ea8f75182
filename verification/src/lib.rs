pub mod cache;
pub mod command;
pub mod orchestrator;
pub mod params;
pub mod resolver;
