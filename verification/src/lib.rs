//! Verified slot arithmetic, timing decisions and shared-tape registries for a
//! video feedback toolkit (delay line and varispeed looper).
//!
//! Everything here is plain integer logic with contracts; the GPU work, the
//! floating-point parameter curves and the C ABI live in the application crate.

pub mod ring;
pub mod timing;
pub mod delay_core;
pub mod varispeed_core;
pub mod spike;
pub mod delay_line;
pub mod read_head;
pub mod varispeed_read;
pub mod heads;
