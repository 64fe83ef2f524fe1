//! A small instruction-set toolchain: a 24-bit integer type, the opcode
//! table, a two-pass assembler and a virtual CPU that executes the
//! assembled byte stream.

pub mod assembler;
pub mod ast;
pub mod cpu;
pub mod encoder;
pub mod machine;
pub mod op;
pub mod text;
pub mod u24;
