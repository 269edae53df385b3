pub mod modrm;
pub mod opcode;
pub mod registers;
