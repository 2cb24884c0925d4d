//! The multiply and divide instructions that the 64-bit instruction set adds, on words.

use vstd::prelude::*;
use crate::encoding::{Opcode, RType};
use crate::types::Register;

verus! {

/// Encodes `mulw rd, rs1, rs2`: multiply words.
pub fn mulw(rd: Register, rs1: Register, rs2: Register) -> (word: u32)
    ensures
        word == (RType {
            opcode: Opcode::Op32,
            funct3: 0b000,
            funct7: 0b0000001,
            rd,
            rs1,
            rs2,
        }).word(),
{
    RType { opcode: Opcode::Op32, funct3: 0b000, funct7: 0b0000001, rd, rs1, rs2 }.encode()
}

/// Encodes `divw rd, rs1, rs2`: divide words, signed.
pub fn divw(rd: Register, rs1: Register, rs2: Register) -> (word: u32)
    ensures
        word == (RType {
            opcode: Opcode::Op32,
            funct3: 0b100,
            funct7: 0b0000001,
            rd,
            rs1,
            rs2,
        }).word(),
{
    RType { opcode: Opcode::Op32, funct3: 0b100, funct7: 0b0000001, rd, rs1, rs2 }.encode()
}

/// Encodes `divuw rd, rs1, rs2`: divide words, unsigned.
pub fn divuw(rd: Register, rs1: Register, rs2: Register) -> (word: u32)
    ensures
        word == (RType {
            opcode: Opcode::Op32,
            funct3: 0b101,
            funct7: 0b0000001,
            rd,
            rs1,
            rs2,
        }).word(),
{
    RType { opcode: Opcode::Op32, funct3: 0b101, funct7: 0b0000001, rd, rs1, rs2 }.encode()
}

/// Encodes `remw rd, rs1, rs2`: remainder of words, signed.
pub fn remw(rd: Register, rs1: Register, rs2: Register) -> (word: u32)
    ensures
        word == (RType {
            opcode: Opcode::Op32,
            funct3: 0b110,
            funct7: 0b0000001,
            rd,
            rs1,
            rs2,
        }).word(),
{
    RType { opcode: Opcode::Op32, funct3: 0b110, funct7: 0b0000001, rd, rs1, rs2 }.encode()
}

/// Encodes `remuw rd, rs1, rs2`: remainder of words, unsigned.
pub fn remuw(rd: Register, rs1: Register, rs2: Register) -> (word: u32)
    ensures
        word == (RType {
            opcode: Opcode::Op32,
            funct3: 0b111,
            funct7: 0b0000001,
            rd,
            rs1,
            rs2,
        }).word(),
{
    RType { opcode: Opcode::Op32, funct3: 0b111, funct7: 0b0000001, rd, rs1, rs2 }.encode()
}

} // verus!
