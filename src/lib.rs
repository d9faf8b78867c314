//! Device layer of a small bare-metal kernel: a scancode queue and key
//! decoding for keyboard input, text and graphics display windows with a
//! fixed-order compositor swap, a terminal, and the interrupt tick counter.
//! The process-wide instances, interrupt masking and the physical memory
//! behind the display windows belong to the kernel that embeds this crate.
pub mod api;
pub mod devices;
pub mod gfx;
pub mod interrupts;
pub mod io;
pub mod maths;
