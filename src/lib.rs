//! Run-time machine-code generation: an encoder for a small x86-32 subset and
//! the bookkeeping of an executable code buffer built from its output.

pub mod assembler;
pub mod buffer;
