//! The records of a command's execution and the AI service.

pub mod models;
pub mod services;
