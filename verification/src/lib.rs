//! Driver core for the Invensense MPU-9250 and the AK8963 magnetometer
//! inside it.
//!
//! The crate holds everything the driver decides: the register catalog and
//! its encodings, the order of bring-up, how each register operation travels
//! over I2C or SPI, and how raw counts become readings in physical units. It
//! performs no I/O. A bring-up ([`i2c::new`], [`spi::new`]) and every later
//! register access name the bus transaction that is due; the owner of the
//! bus performs it and hands the answer back.
//!
//! Readings are exact: a reading is a [`Ratio`], the count times the scale
//! factors of the device's [`Handle`].

pub mod bits;
pub mod bringup;
pub mod config;
pub mod error;
pub mod handle;
pub mod i2c;
pub mod mpu;
mod private;
pub mod ratio;
pub mod regs;
pub mod spi;
pub mod transport;
pub mod triplet;

pub use bringup::{Bringup, Step};
pub use config::Config;
pub use error::Error;
pub use handle::Handle;
pub use mpu::Mpu;
pub use ratio::Ratio;
pub use transport::Transport;
pub use triplet::Triplet;
