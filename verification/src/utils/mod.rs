//! The settings model of the driver.
pub mod settings;
