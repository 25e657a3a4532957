//! Clock tree control for SAM D21 microcontrollers.
//!
//! [`clock`] holds the controller: the bring-up sequences, the generators
//! and the peripheral channels, each handed out once. It decides and keeps
//! the books; what it decides comes out as a list of register transactions,
//! and from those as a list of loads and stores, that the owner of the
//! registers carries out. [`time`] holds the frequencies it counts in.
//! [`generic`], [`dmac`] and [`tcc0`] hold typed access to the bit fields
//! of raw register values.
#![allow(unused_imports)]

pub mod clock;
pub mod dmac;
pub mod generic;
pub mod tcc0;
pub mod time;
