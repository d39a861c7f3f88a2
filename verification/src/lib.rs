//! A single-pass assembler for a small subset of the RISC-V instruction set.
//!
//! Assembly text is scanned into tokens, parsed by recursive descent into
//! abstract instructions, and encoded into the bit-exact 32-bit RISC-V
//! instruction layouts, rendered as binary-digit strings or as a hexadecimal
//! byte dump. A label-table pass collects label definitions with their
//! program-counter offsets so that branch immediates can be resolved before
//! encoding.

pub mod token;
pub mod error;
pub mod lexer;
pub mod ast;
pub mod parser;
pub mod inst;
pub mod code_gen;
pub mod assembler;
pub mod label_table;
