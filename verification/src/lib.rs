//! A verified emulator for a small 16-bit accumulator machine: a flat
//! byte-addressable memory with big-endian word access, a three-tier opcode
//! decoder, and a fetch-decode-execute engine with precise flag semantics.

pub mod instruction;
pub mod machine;
