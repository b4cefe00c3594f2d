//! A verified parser for 64-bit little-endian x86-64 ELF files, together
//! with the pure decision logic of a minimal, freestanding loader around it:
//! the error taxonomy with its exit-code encoding, the tagged decoders for
//! every enumerated ELF field, the fixed-layout record registry, the string
//! pool, the header validator, the parse orchestrator, and the per-kernel
//! syscall result conventions.

pub mod elf;
pub mod error;
pub mod os;
pub mod utils;
