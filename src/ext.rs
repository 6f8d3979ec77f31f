//! Instruction encodings, the per-extension instruction sets and the
//! decoder that searches them.
pub mod a;
pub mod decode;
pub mod encoding;
pub mod i;
pub mod m;
pub mod z;
