//! The multiply and divide instructions of the 32-bit instruction set.

use vstd::prelude::*;
use crate::encoding::{Opcode, RType};
use crate::types::Register;

verus! {

/// Encodes `mul rd, rs1, rs2`: multiply, low half.
pub fn mul(rd: Register, rs1: Register, rs2: Register) -> (word: u32)
    ensures
        word == (RType {
            opcode: Opcode::Op,
            funct3: 0b000,
            funct7: 0b0000001,
            rd,
            rs1,
            rs2,
        }).word(),
{
    RType { opcode: Opcode::Op, funct3: 0b000, funct7: 0b0000001, rd, rs1, rs2 }.encode()
}

/// Encodes `mulh rd, rs1, rs2`: multiply, high half, signed.
pub fn mulh(rd: Register, rs1: Register, rs2: Register) -> (word: u32)
    ensures
        word == (RType {
            opcode: Opcode::Op,
            funct3: 0b001,
            funct7: 0b0000001,
            rd,
            rs1,
            rs2,
        }).word(),
{
    RType { opcode: Opcode::Op, funct3: 0b001, funct7: 0b0000001, rd, rs1, rs2 }.encode()
}

/// Encodes `mulhsu rd, rs1, rs2`: multiply, high half, signed by unsigned.
pub fn mulhsu(rd: Register, rs1: Register, rs2: Register) -> (word: u32)
    ensures
        word == (RType {
            opcode: Opcode::Op,
            funct3: 0b010,
            funct7: 0b0000001,
            rd,
            rs1,
            rs2,
        }).word(),
{
    RType { opcode: Opcode::Op, funct3: 0b010, funct7: 0b0000001, rd, rs1, rs2 }.encode()
}

/// Encodes `mulhu rd, rs1, rs2`: multiply, high half, unsigned.
pub fn mulhu(rd: Register, rs1: Register, rs2: Register) -> (word: u32)
    ensures
        word == (RType {
            opcode: Opcode::Op,
            funct3: 0b011,
            funct7: 0b0000001,
            rd,
            rs1,
            rs2,
        }).word(),
{
    RType { opcode: Opcode::Op, funct3: 0b011, funct7: 0b0000001, rd, rs1, rs2 }.encode()
}

/// Encodes `div rd, rs1, rs2`: divide, signed.
pub fn div(rd: Register, rs1: Register, rs2: Register) -> (word: u32)
    ensures
        word == (RType {
            opcode: Opcode::Op,
            funct3: 0b100,
            funct7: 0b0000001,
            rd,
            rs1,
            rs2,
        }).word(),
{
    RType { opcode: Opcode::Op, funct3: 0b100, funct7: 0b0000001, rd, rs1, rs2 }.encode()
}

/// Encodes `divu rd, rs1, rs2`: divide, unsigned.
pub fn divu(rd: Register, rs1: Register, rs2: Register) -> (word: u32)
    ensures
        word == (RType {
            opcode: Opcode::Op,
            funct3: 0b101,
            funct7: 0b0000001,
            rd,
            rs1,
            rs2,
        }).word(),
{
    RType { opcode: Opcode::Op, funct3: 0b101, funct7: 0b0000001, rd, rs1, rs2 }.encode()
}

/// Encodes `rem rd, rs1, rs2`: remainder, signed.
pub fn rem(rd: Register, rs1: Register, rs2: Register) -> (word: u32)
    ensures
        word == (RType {
            opcode: Opcode::Op,
            funct3: 0b110,
            funct7: 0b0000001,
            rd,
            rs1,
            rs2,
        }).word(),
{
    RType { opcode: Opcode::Op, funct3: 0b110, funct7: 0b0000001, rd, rs1, rs2 }.encode()
}

/// Encodes `remu rd, rs1, rs2`: remainder, unsigned.
pub fn remu(rd: Register, rs1: Register, rs2: Register) -> (word: u32)
    ensures
        word == (RType {
            opcode: Opcode::Op,
            funct3: 0b111,
            funct7: 0b0000001,
            rd,
            rs1,
            rs2,
        }).word(),
{
    RType { opcode: Opcode::Op, funct3: 0b111, funct7: 0b0000001, rd, rs1, rs2 }.encode()
}

} // verus!
