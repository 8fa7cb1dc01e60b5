//! Driver for the ADXL343 three-axis accelerometer on a two-wire register bus.
//!
//! - [`registers`] is the register map: addresses, protocol constants and the
//!   bit layouts of the configuration registers.
//! - [`utils::settings`] is the settings model, from which the register bytes
//!   and the constants of the conversion derive.
//! - [`conversion`] turns the two data bytes of an axis into a signed count.
//! - [`bus`] is the seam to the bus, and the history of what went over it.
//! - [`adxl343_interface`] is the driver, which sequences the transfers.
//!
//! Readings are signed counts; a count divided by the counts per g of the
//! settings is the acceleration in g's.
#![allow(non_camel_case_types, non_snake_case, non_upper_case_globals)]

pub mod adxl343_interface;
pub mod bus;
pub mod conversion;
pub mod registers;
pub mod utils;
