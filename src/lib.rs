//! Register-level control of a 16-pin I2C GPIO expander and of an I2C
//! current/power monitor, reached through a USB-to-I2C bridge.

pub mod bus;
pub mod powmon;
pub mod tools;
