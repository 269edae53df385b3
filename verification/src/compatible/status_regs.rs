//! The run state of the first real-mode CPU.

pub use crate::targets::x86::status_regs::CpuState;
