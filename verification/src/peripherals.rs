//! The peripheral blocks: their register map and their drivers.

pub mod gpio;
pub mod rcc;
pub mod regs;
pub mod uart;
