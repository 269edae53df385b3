//! The parts of the 64-bit CPU that its pipelines share: registers,
//! instruction set, fetch, decode and the first execute stage.

pub mod decoder;
pub mod ex_stage;
pub mod exceptions;
pub mod fetcher;
pub mod instruction;
pub mod isa;
pub mod model;
pub mod register_file;

pub use crate::targets::x86_64::CpuState;
