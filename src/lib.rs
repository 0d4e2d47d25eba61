//! Sv32 address translation and the memory surface of a 32-bit
//! instruction-set simulator.

pub mod addr;
pub mod bus;
pub mod mem;
pub mod walk;
pub mod sim;
