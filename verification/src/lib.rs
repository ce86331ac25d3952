//! Kaido: verified core of an ops-learning assistant.
pub mod text;
pub mod clock;
pub mod kubectl;
pub mod mentor;
pub mod agent;
pub mod ai;
pub mod audit;
pub mod auth;
pub mod coach;
pub mod error;
pub mod config;
pub mod learning;
pub mod matching;
pub mod mcp;
pub mod setup;
