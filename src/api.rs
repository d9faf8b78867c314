//! Services for programs: calendar time and processor information.
pub mod clock;
pub mod sysinf;
