//! Register-level drivers for the clock controller, the GPIO ports and the
//! UARTs of a LoRa system-on-chip, and the state of the two applications that
//! run on it.
//!
//! The drivers hold no pointer. Each is a handle on the base address of its
//! register block and is handed a [`bus::RegisterBus`] with every call; what
//! a call does is stated as the change it makes to the registers behind the
//! bus and to the record of writes and waits.
//!
//! - [`bits`]: replacing a field and switching a mask in one register value.
//! - [`bus`]: the bus, the model of it that the contracts use, and a register
//!   bank in memory.
//! - [`peripherals`]: the register map and the drivers.
//! - [`print`]: text through a UART and into a fixed buffer.
//! - [`class_c`], [`radio`]: the transitions of the two applications.

pub mod bits;
pub mod bus;
pub mod class_c;
pub mod peripherals;
pub mod print;
pub mod radio;
