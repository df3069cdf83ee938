//! The I2C peripheral

pub mod clock;
mod private;
