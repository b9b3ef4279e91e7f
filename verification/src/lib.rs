//! Driver for the IS31FL3235A, a 28-channel constant-current LED driver on
//! an I2C bus.
//!
//! The device is a bank of one-byte registers, and every operation of the
//! driver is a short, fixed list of register writes: `registers` holds the
//! register map, `protocol` the lists, `driver` the operations. The driver
//! never reads from the device and keeps no copy of its state.
//!
//! The bus is anything that implements `Bus`. A write may fail, and the
//! driver does not retry: the first write that the bus refuses ends the
//! operation, and the bus's error goes back to the caller unchanged.
//!
//! The contracts say which writes an operation hands to the bus, in what
//! order, and what it returns for each answer the bus may give. They are
//! stated over a ghost transcript of the bus traffic, kept in `bus`. What
//! the writes do to the device is proved over the model in `device`.

pub mod bus;
pub mod device;
pub mod driver;
pub mod protocol;
pub mod registers;

pub use bus::Bus;
pub use driver::{Error, Is31fl3235a};
pub use registers::{OutputCurrent, OutputFrequency, Register, SoftwareShutdownMode};
