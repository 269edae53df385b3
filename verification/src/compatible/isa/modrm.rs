//! The ModR/M byte, decoded as in real mode.

pub use crate::targets::x86::isa::modrm::{modrm32_spec, ModRm};
