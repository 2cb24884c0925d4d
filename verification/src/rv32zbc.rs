//! The carry-less multiplication instructions.

use vstd::prelude::*;
use crate::encoding::{Opcode, RType};
use crate::types::Register;

verus! {

/// Encodes `clmul rd, rs1, rs2`: carry-less multiply, low half.
pub fn clmul(rd: Register, rs1: Register, rs2: Register) -> (word: u32)
    ensures
        word == (RType {
            opcode: Opcode::Op,
            funct3: 0b001,
            funct7: 0b0000101,
            rd,
            rs1,
            rs2,
        }).word(),
{
    RType { opcode: Opcode::Op, funct3: 0b001, funct7: 0b0000101, rd, rs1, rs2 }.encode()
}

/// Encodes `clmulh rd, rs1, rs2`: carry-less multiply, high half.
pub fn clmulh(rd: Register, rs1: Register, rs2: Register) -> (word: u32)
    ensures
        word == (RType {
            opcode: Opcode::Op,
            funct3: 0b011,
            funct7: 0b0000101,
            rd,
            rs1,
            rs2,
        }).word(),
{
    RType { opcode: Opcode::Op, funct3: 0b011, funct7: 0b0000101, rd, rs1, rs2 }.encode()
}

/// Encodes `clmulr rd, rs1, rs2`: carry-less multiply, reversed.
pub fn clmulr(rd: Register, rs1: Register, rs2: Register) -> (word: u32)
    ensures
        word == (RType {
            opcode: Opcode::Op,
            funct3: 0b010,
            funct7: 0b0000101,
            rd,
            rs1,
            rs2,
        }).word(),
{
    RType { opcode: Opcode::Op, funct3: 0b010, funct7: 0b0000101, rd, rs1, rs2 }.encode()
}

} // verus!
