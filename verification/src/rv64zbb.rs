//! The basic bit manipulation instructions that the 64-bit instruction set adds or encodes differently.

use vstd::prelude::*;
use vstd::arithmetic::power2::lemma2_to64;
use crate::encoding::{shift_imm, shift_imm12_5, shift_imm12_6, IType, Opcode, RType};
use crate::types::Register;

verus! {

/// Encodes `clzw rd, rs`: count the leading zeros of a word.
pub fn clzw(rd: Register, rs: Register) -> (word: u32)
    ensures
        word == (IType {
            opcode: Opcode::OpImm32,
            funct3: 0b001,
            rd,
            rs,
            imm12: 0b0110000_00000,
        }).word(),
{
    proof {
        lemma2_to64();
    }
    IType { opcode: Opcode::OpImm32, funct3: 0b001, rd, rs, imm12: 0b0110000_00000 }.encode()
}

/// Encodes `cpopw rd, rs`: count the bits set in a word.
pub fn cpopw(rd: Register, rs: Register) -> (word: u32)
    ensures
        word == (IType {
            opcode: Opcode::OpImm32,
            funct3: 0b001,
            rd,
            rs,
            imm12: 0b0110000_00010,
        }).word(),
{
    proof {
        lemma2_to64();
    }
    IType { opcode: Opcode::OpImm32, funct3: 0b001, rd, rs, imm12: 0b0110000_00010 }.encode()
}

/// Encodes `ctzw rd, rs`: count the trailing zeros of a word.
pub fn ctzw(rd: Register, rs: Register) -> (word: u32)
    ensures
        word == (IType {
            opcode: Opcode::OpImm32,
            funct3: 0b001,
            rd,
            rs,
            imm12: 0b0110000_00001,
        }).word(),
{
    proof {
        lemma2_to64();
    }
    IType { opcode: Opcode::OpImm32, funct3: 0b001, rd, rs, imm12: 0b0110000_00001 }.encode()
}

/// Encodes `rev8 rd, rs`: reverse the bytes.
pub fn rev8(rd: Register, rs: Register) -> (word: u32)
    ensures
        word == (IType {
            opcode: Opcode::OpImm,
            funct3: 0b101,
            rd,
            rs,
            imm12: 0b0110101_11000,
        }).word(),
{
    proof {
        lemma2_to64();
    }
    IType { opcode: Opcode::OpImm, funct3: 0b101, rd, rs, imm12: 0b0110101_11000 }.encode()
}

/// Encodes `rolw rd, rs1, rs2`: rotate a word left.
pub fn rolw(rd: Register, rs1: Register, rs2: Register) -> (word: u32)
    ensures
        word == (RType {
            opcode: Opcode::Op32,
            funct3: 0b001,
            funct7: 0b0110000,
            rd,
            rs1,
            rs2,
        }).word(),
{
    RType { opcode: Opcode::Op32, funct3: 0b001, funct7: 0b0110000, rd, rs1, rs2 }.encode()
}

/// Encodes `rori rd, rs, shamt`: rotate right. Of `shamt` the 6 low bits are encoded.
pub fn rori(rd: Register, rs: Register, shamt: u8) -> (word: u32)
    ensures
        word == (IType {
            opcode: Opcode::OpImm,
            funct3: 0b101,
            rd,
            rs,
            imm12: shift_imm(0b011000,
            shamt,
            6),
        }).word(),
{
    let imm12: i16 = shift_imm12_6(0b011000, shamt);
    IType { opcode: Opcode::OpImm, funct3: 0b101, rd, rs, imm12 }.encode()
}

/// Encodes `roriw rd, rs, shamt`: rotate a word right. Of `shamt` the 5 low bits are encoded.
pub fn roriw(rd: Register, rs: Register, shamt: u8) -> (word: u32)
    ensures
        word == (IType {
            opcode: Opcode::OpImm32,
            funct3: 0b101,
            rd,
            rs,
            imm12: shift_imm(0b0110000,
            shamt,
            5),
        }).word(),
{
    let imm12: i16 = shift_imm12_5(0b0110000, shamt);
    IType { opcode: Opcode::OpImm32, funct3: 0b101, rd, rs, imm12 }.encode()
}

/// Encodes `rorw rd, rs1, rs2`: rotate a word right.
pub fn rorw(rd: Register, rs1: Register, rs2: Register) -> (word: u32)
    ensures
        word == (RType {
            opcode: Opcode::Op32,
            funct3: 0b101,
            funct7: 0b0110000,
            rd,
            rs1,
            rs2,
        }).word(),
{
    RType { opcode: Opcode::Op32, funct3: 0b101, funct7: 0b0110000, rd, rs1, rs2 }.encode()
}

/// Encodes `zext.h rd, rs`: zero-extend the low half word.
pub fn zext_h(rd: Register, rs: Register) -> (word: u32)
    ensures
        word == (IType {
            opcode: Opcode::Op32,
            funct3: 0b100,
            rd,
            rs,
            imm12: 0b0000100_00000,
        }).word(),
{
    proof {
        lemma2_to64();
    }
    IType { opcode: Opcode::Op32, funct3: 0b100, rd, rs, imm12: 0b0000100_00000 }.encode()
}

} // verus!
