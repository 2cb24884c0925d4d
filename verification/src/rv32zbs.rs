//! The single-bit instructions of the 32-bit instruction set.

use vstd::prelude::*;
use crate::encoding::{shift_imm, shift_imm12_5, IType, Opcode, RType};
use crate::types::Register;

verus! {

/// Encodes `bclr rd, rs1, rs2`: clear a bit.
pub fn bclr(rd: Register, rs1: Register, rs2: Register) -> (word: u32)
    ensures
        word == (RType {
            opcode: Opcode::Op,
            funct3: 0b001,
            funct7: 0b0100100,
            rd,
            rs1,
            rs2,
        }).word(),
{
    RType { opcode: Opcode::Op, funct3: 0b001, funct7: 0b0100100, rd, rs1, rs2 }.encode()
}

/// Encodes `bclri rd, rs, shamt`: clear a bit at a constant position. Of `shamt` the 5 low bits are encoded.
pub fn bclri(rd: Register, rs: Register, shamt: u8) -> (word: u32)
    ensures
        word == (IType {
            opcode: Opcode::OpImm,
            funct3: 0b001,
            rd,
            rs,
            imm12: shift_imm(0b0100100,
            shamt,
            5),
        }).word(),
{
    let imm12: i16 = shift_imm12_5(0b0100100, shamt);
    IType { opcode: Opcode::OpImm, funct3: 0b001, rd, rs, imm12 }.encode()
}

/// Encodes `bext rd, rs1, rs2`: extract a bit.
pub fn bext(rd: Register, rs1: Register, rs2: Register) -> (word: u32)
    ensures
        word == (RType {
            opcode: Opcode::Op,
            funct3: 0b101,
            funct7: 0b0100100,
            rd,
            rs1,
            rs2,
        }).word(),
{
    RType { opcode: Opcode::Op, funct3: 0b101, funct7: 0b0100100, rd, rs1, rs2 }.encode()
}

/// Encodes `bexti rd, rs, shamt`: extract a bit at a constant position. Of `shamt` the 5 low bits are encoded.
pub fn bexti(rd: Register, rs: Register, shamt: u8) -> (word: u32)
    ensures
        word == (IType {
            opcode: Opcode::OpImm,
            funct3: 0b101,
            rd,
            rs,
            imm12: shift_imm(0b0100100,
            shamt,
            5),
        }).word(),
{
    let imm12: i16 = shift_imm12_5(0b0100100, shamt);
    IType { opcode: Opcode::OpImm, funct3: 0b101, rd, rs, imm12 }.encode()
}

/// Encodes `binv rd, rs1, rs2`: invert a bit.
pub fn binv(rd: Register, rs1: Register, rs2: Register) -> (word: u32)
    ensures
        word == (RType {
            opcode: Opcode::Op,
            funct3: 0b001,
            funct7: 0b0110100,
            rd,
            rs1,
            rs2,
        }).word(),
{
    RType { opcode: Opcode::Op, funct3: 0b001, funct7: 0b0110100, rd, rs1, rs2 }.encode()
}

/// Encodes `binvi rd, rs, shamt`: invert a bit at a constant position. Of `shamt` the 5 low bits are encoded.
pub fn binvi(rd: Register, rs: Register, shamt: u8) -> (word: u32)
    ensures
        word == (IType {
            opcode: Opcode::OpImm,
            funct3: 0b001,
            rd,
            rs,
            imm12: shift_imm(0b0110100,
            shamt,
            5),
        }).word(),
{
    let imm12: i16 = shift_imm12_5(0b0110100, shamt);
    IType { opcode: Opcode::OpImm, funct3: 0b001, rd, rs, imm12 }.encode()
}

/// Encodes `bset rd, rs1, rs2`: set a bit.
pub fn bset(rd: Register, rs1: Register, rs2: Register) -> (word: u32)
    ensures
        word == (RType {
            opcode: Opcode::Op,
            funct3: 0b001,
            funct7: 0b0010100,
            rd,
            rs1,
            rs2,
        }).word(),
{
    RType { opcode: Opcode::Op, funct3: 0b001, funct7: 0b0010100, rd, rs1, rs2 }.encode()
}

/// Encodes `bseti rd, rs, shamt`: set a bit at a constant position. Of `shamt` the 5 low bits are encoded.
pub fn bseti(rd: Register, rs: Register, shamt: u8) -> (word: u32)
    ensures
        word == (IType {
            opcode: Opcode::OpImm,
            funct3: 0b001,
            rd,
            rs,
            imm12: shift_imm(0b0010100,
            shamt,
            5),
        }).word(),
{
    let imm12: i16 = shift_imm12_5(0b0010100, shamt);
    IType { opcode: Opcode::OpImm, funct3: 0b001, rd, rs, imm12 }.encode()
}

} // verus!
