//! Driver-free access to a System-on-Chip's GPIO register block.
//!
//! The library models the GPIO block as a window of 32-bit words and proves
//! the address and bit-field arithmetic that turns a logical (bank, pin)
//! coordinate into a register access: which word a bank's data register or a
//! pin's configuration register lives in, and how a pin's 4-bit function
//! field is updated without disturbing its neighbours.
//!
//! [`regs`] holds the hardware constants and the pure arithmetic, [`window`]
//! the word-addressed register window, and [`gpio`] the controller that
//! performs bank-wide and per-pin operations through the window.
//!
//! Mapping the physical register block into process memory (and the volatile
//! loads and stores against live hardware) requires raw pointers and an OS
//! mapping call; a thin unverified layer owns that mapping and delegates all
//! index and value computation to this crate.

pub mod gpio;
pub mod regs;
pub mod window;
