//! Runtime values of a small stack-oriented bytecode format, the one-byte tags
//! that identify value kinds and instructions, and the canonical binary
//! encoding of values.

pub mod codec;
pub mod little_endian;
pub mod opcode;
pub mod text;
pub mod types;
pub mod values;
