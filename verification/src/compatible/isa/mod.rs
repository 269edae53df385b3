pub mod modrm;
pub mod opcode;
