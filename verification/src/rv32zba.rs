//! The address generation instructions of the 32-bit instruction set.

use vstd::prelude::*;
use crate::encoding::{Opcode, RType};
use crate::types::Register;

verus! {

/// Encodes `sh1add rd, rs1, rs2`: shift left by 1 and add.
pub fn sh1add(rd: Register, rs1: Register, rs2: Register) -> (word: u32)
    ensures
        word == (RType {
            opcode: Opcode::Op,
            funct3: 0b010,
            funct7: 0b0010000,
            rd,
            rs1,
            rs2,
        }).word(),
{
    RType { opcode: Opcode::Op, funct3: 0b010, funct7: 0b0010000, rd, rs1, rs2 }.encode()
}

/// Encodes `sh2add rd, rs1, rs2`: shift left by 2 and add.
pub fn sh2add(rd: Register, rs1: Register, rs2: Register) -> (word: u32)
    ensures
        word == (RType {
            opcode: Opcode::Op,
            funct3: 0b100,
            funct7: 0b0010000,
            rd,
            rs1,
            rs2,
        }).word(),
{
    RType { opcode: Opcode::Op, funct3: 0b100, funct7: 0b0010000, rd, rs1, rs2 }.encode()
}

/// Encodes `sh3add rd, rs1, rs2`: shift left by 3 and add.
pub fn sh3add(rd: Register, rs1: Register, rs2: Register) -> (word: u32)
    ensures
        word == (RType {
            opcode: Opcode::Op,
            funct3: 0b110,
            funct7: 0b0010000,
            rd,
            rs1,
            rs2,
        }).word(),
{
    RType { opcode: Opcode::Op, funct3: 0b110, funct7: 0b0010000, rd, rs1, rs2 }.encode()
}

} // verus!
