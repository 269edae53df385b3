pub mod eflags;
pub mod modrm;
pub mod opcode;
