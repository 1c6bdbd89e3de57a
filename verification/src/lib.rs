//! The verified core of a position-independent, two-stage kernel bootstrap:
//! architecture parameters, linker script text, the inner loader build plan,
//! the embedded loader image, and the hand-off into the kernel.

pub mod arch;
pub mod config;
pub mod entry;
pub mod image;
pub mod linker;
pub mod loader;
pub mod shim;
