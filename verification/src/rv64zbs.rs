//! The single-bit instructions with a constant position, as the 64-bit instruction set encodes them.

use vstd::prelude::*;
use crate::encoding::{shift_imm, shift_imm12_6, IType, Opcode};
use crate::types::Register;

verus! {

/// Encodes `bclri rd, rs, shamt`: clear a bit at a constant position. Of `shamt` the 6 low bits are encoded.
pub fn bclri(rd: Register, rs: Register, shamt: u8) -> (word: u32)
    ensures
        word == (IType {
            opcode: Opcode::OpImm,
            funct3: 0b001,
            rd,
            rs,
            imm12: shift_imm(0b010010,
            shamt,
            6),
        }).word(),
{
    let imm12: i16 = shift_imm12_6(0b010010, shamt);
    IType { opcode: Opcode::OpImm, funct3: 0b001, rd, rs, imm12 }.encode()
}

/// Encodes `bexti rd, rs, shamt`: extract a bit at a constant position. Of `shamt` the 6 low bits are encoded.
pub fn bexti(rd: Register, rs: Register, shamt: u8) -> (word: u32)
    ensures
        word == (IType {
            opcode: Opcode::OpImm,
            funct3: 0b101,
            rd,
            rs,
            imm12: shift_imm(0b010010,
            shamt,
            6),
        }).word(),
{
    let imm12: i16 = shift_imm12_6(0b010010, shamt);
    IType { opcode: Opcode::OpImm, funct3: 0b101, rd, rs, imm12 }.encode()
}

/// Encodes `binvi rd, rs, shamt`: invert a bit at a constant position. Of `shamt` the 6 low bits are encoded.
pub fn binvi(rd: Register, rs: Register, shamt: u8) -> (word: u32)
    ensures
        word == (IType {
            opcode: Opcode::OpImm,
            funct3: 0b001,
            rd,
            rs,
            imm12: shift_imm(0b011010,
            shamt,
            6),
        }).word(),
{
    let imm12: i16 = shift_imm12_6(0b011010, shamt);
    IType { opcode: Opcode::OpImm, funct3: 0b001, rd, rs, imm12 }.encode()
}

/// Encodes `bseti rd, rs, shamt`: set a bit at a constant position. Of `shamt` the 6 low bits are encoded.
pub fn bseti(rd: Register, rs: Register, shamt: u8) -> (word: u32)
    ensures
        word == (IType {
            opcode: Opcode::OpImm,
            funct3: 0b001,
            rd,
            rs,
            imm12: shift_imm(0b001010,
            shamt,
            6),
        }).word(),
{
    let imm12: i16 = shift_imm12_6(0b001010, shamt);
    IType { opcode: Opcode::OpImm, funct3: 0b001, rd, rs, imm12 }.encode()
}

} // verus!
