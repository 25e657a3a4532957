//! Registers of the timer/counter for control applications.

pub mod cc_dith6_mode;
