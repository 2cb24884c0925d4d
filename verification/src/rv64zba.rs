//! The address generation instructions that the 64-bit instruction set adds.

use vstd::prelude::*;
use crate::encoding::{shift_imm, shift_imm12_6, IType, Opcode, RType};
use crate::types::Register;

verus! {

/// Encodes `add.uw rd, rs1, rs2`: add an unsigned word.
pub fn add_uw(rd: Register, rs1: Register, rs2: Register) -> (word: u32)
    ensures
        word == (RType {
            opcode: Opcode::Op32,
            funct3: 0b000,
            funct7: 0b0000100,
            rd,
            rs1,
            rs2,
        }).word(),
{
    RType { opcode: Opcode::Op32, funct3: 0b000, funct7: 0b0000100, rd, rs1, rs2 }.encode()
}

/// Encodes `sh1add.uw rd, rs1, rs2`: shift an unsigned word left by 1 and add.
pub fn sh1add_uw(rd: Register, rs1: Register, rs2: Register) -> (word: u32)
    ensures
        word == (RType {
            opcode: Opcode::Op32,
            funct3: 0b010,
            funct7: 0b0010000,
            rd,
            rs1,
            rs2,
        }).word(),
{
    RType { opcode: Opcode::Op32, funct3: 0b010, funct7: 0b0010000, rd, rs1, rs2 }.encode()
}

/// Encodes `sh2add.uw rd, rs1, rs2`: shift an unsigned word left by 2 and add.
pub fn sh2add_uw(rd: Register, rs1: Register, rs2: Register) -> (word: u32)
    ensures
        word == (RType {
            opcode: Opcode::Op32,
            funct3: 0b100,
            funct7: 0b0010000,
            rd,
            rs1,
            rs2,
        }).word(),
{
    RType { opcode: Opcode::Op32, funct3: 0b100, funct7: 0b0010000, rd, rs1, rs2 }.encode()
}

/// Encodes `sh3add.uw rd, rs1, rs2`: shift an unsigned word left by 3 and add.
pub fn sh3add_uw(rd: Register, rs1: Register, rs2: Register) -> (word: u32)
    ensures
        word == (RType {
            opcode: Opcode::Op32,
            funct3: 0b110,
            funct7: 0b0010000,
            rd,
            rs1,
            rs2,
        }).word(),
{
    RType { opcode: Opcode::Op32, funct3: 0b110, funct7: 0b0010000, rd, rs1, rs2 }.encode()
}

/// Encodes `slli.uw rd, rs, shamt`: shift an unsigned word left. Of `shamt` the 6 low bits are encoded.
pub fn slli_uw(rd: Register, rs: Register, shamt: u8) -> (word: u32)
    ensures
        word == (IType {
            opcode: Opcode::OpImm32,
            funct3: 0b001,
            rd,
            rs,
            imm12: shift_imm(0b000010,
            shamt,
            6),
        }).word(),
{
    let imm12: i16 = shift_imm12_6(0b000010, shamt);
    IType { opcode: Opcode::OpImm32, funct3: 0b001, rd, rs, imm12 }.encode()
}

} // verus!
