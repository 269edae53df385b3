pub mod riscv;
pub mod x86;
pub mod x86_64;
