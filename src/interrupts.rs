//! Interrupt-driven timekeeping.
pub mod global_timer;
