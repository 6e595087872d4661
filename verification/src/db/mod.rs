//! Stored games.

pub mod models;
pub mod pool;
pub mod queries;
