//! A linear disassembler for EVM contract bytecode.
//!
//! `opcode` holds the instruction descriptor table, `processor` the linear
//! scan and the extraction of function selectors, and `listing` the textual
//! rendering of a disassembly together with its inverse.
pub mod opcode;
pub mod processor;
pub mod listing;
