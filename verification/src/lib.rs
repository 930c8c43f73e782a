//! An emulator for an 8-bit accumulator machine with the 6502 instruction
//! set, and the two-pass assembler that produces the programs it runs.
//!
//! - [`isa`]: addressing modes, mnemonics and the opcode table.
//! - [`machine`]: the model of the processor, as specification.
//! - [`cpu`]: the engine that runs one instruction per step.
//! - [`console`]: loading a program, the entropy cell and the screen.
//! - [`lexer`]: tokens and the scanner.
//! - [`numeral`], [`mode`], [`assembler`]: reading operands, inferring
//!   addressing modes, and the passes from tokens to a program.
//! - [`laws`], [`assembly_laws`], [`round_trip`]: what holds of the engine,
//!   of the assembler, and of the two together.

pub mod isa;
pub mod machine;
pub mod cpu;
pub mod console;
pub mod laws;
pub mod numeral;
pub mod lexer;
pub mod mode;
pub mod assembler;
pub mod assembly_laws;
pub mod round_trip;
