pub mod memory;
pub mod memory_access;
pub mod uart16550;
pub mod interconnect;
