//! Instruction encoding and relocation fixups for a RISC-V machine-code
//! emitter.
//!
//! [`encoding`] composes instruction words field by field and states the
//! layout of each instruction format. The modules named after the
//! instruction sets hold one function for each mnemonic, which returns the
//! instruction's word. [`fixup`] replaces the offset of an instruction that
//! was emitted before its target was known, in the bytes of the output.

pub mod encoding;
pub mod fixup;
pub mod rv32c;
pub mod rv32i;
pub mod rv32m;
pub mod rv32zba;
pub mod rv32zbb;
pub mod rv32zbc;
pub mod rv32zbs;
pub mod rv64c;
pub mod rv64i;
pub mod rv64m;
pub mod rv64zba;
pub mod rv64zbb;
pub mod rv64zbs;
pub mod types;

pub use self::types::{is_compressible, to_cregister, CRegister, CRegisterTryFromError, Register};
