//! Errors, configuration, logging levels and text helpers.

pub mod clock;
pub mod config;
pub mod error;
pub mod logging;
pub mod text;

pub use config::Config;
pub use error::GroundhogError;
