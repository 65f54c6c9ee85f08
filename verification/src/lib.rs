//! An LC-3 virtual machine: a 16-bit, word-addressable educational computer
//! with eight general-purpose registers, a condition-code register, a program
//! counter, and a small fixed instruction set.
//!
//! The library holds the machine model: sign extension, instruction decoding,
//! the register file, memory with its memory-mapped device registers, the
//! executor, the image loader, and the state machine of the interactive
//! debugger. Console and network transport live with the binary that embeds
//! the library.

pub mod config;
pub mod cpu;
pub mod debugger;
pub mod file;
pub mod file_loader;
pub mod instruction;
pub mod opcode;
pub mod sign_extend;
pub mod state;
pub mod text;
pub mod trap_vector;
pub mod utilities;
