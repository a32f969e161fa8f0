//! Verified core of a full-duplex SPI master driver for the STM32F042.
//!
//! The crate decides; it never touches a register. Every function here maps
//! plain values (frequencies, status flags, bytes) to plain values (a
//! prescaler code, a control word, the next register access), and each one is
//! proved against the contract written on it. The caller performs the register
//! accesses that the results name.

pub mod clock;
pub mod control;
pub mod gpio;
pub mod mode;
pub mod spi;
pub mod status;
pub mod transfer;
