//! Architectural state of an ARM7TDMI-class processor: banked register file,
//! current and saved status flags, and prioritised exception entry.

pub mod flags;
pub mod registers;
pub mod exceptions;
pub mod arm7;
pub mod bus;
pub mod cartridge;
