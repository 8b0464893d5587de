//! Decoding of 8086 machine code into assembly text.
//!
//! Bytes are read in big-endian 16-bit units, split into named bit-fields,
//! matched against a table of opcode patterns, resolved into instruction
//! values and rendered as text such as `MOV DX, CX`.
pub mod error;
pub mod register;
pub mod encoding;
pub mod instruction;
pub mod dispatch;
pub mod stream;
