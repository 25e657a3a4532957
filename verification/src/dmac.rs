//! Registers of the direct memory access controller.

pub mod swtrigctrl;
