pub mod arith;
pub mod model;
pub mod bus;
pub mod registers;
pub mod opcode;
pub mod util;
pub mod cpu;
pub mod disasm;
pub mod vram;
pub mod x68k;
pub mod laws;
