//! The basic bit manipulation instructions of the 32-bit instruction set.

use vstd::prelude::*;
use vstd::arithmetic::power2::lemma2_to64;
use crate::encoding::{shift_imm, shift_imm12_5, IType, Opcode, RType};
use crate::types::Register;

verus! {

/// Encodes `andn rd, rs1, rs2`: and with the complement.
pub fn andn(rd: Register, rs1: Register, rs2: Register) -> (word: u32)
    ensures
        word == (RType {
            opcode: Opcode::Op,
            funct3: 0b111,
            funct7: 0b0100000,
            rd,
            rs1,
            rs2,
        }).word(),
{
    RType { opcode: Opcode::Op, funct3: 0b111, funct7: 0b0100000, rd, rs1, rs2 }.encode()
}

/// Encodes `clz rd, rs`: count the leading zeros.
pub fn clz(rd: Register, rs: Register) -> (word: u32)
    ensures
        word == (IType {
            opcode: Opcode::OpImm,
            funct3: 0b001,
            rd,
            rs,
            imm12: 0b0110000_00000,
        }).word(),
{
    proof {
        lemma2_to64();
    }
    IType { opcode: Opcode::OpImm, funct3: 0b001, rd, rs, imm12: 0b0110000_00000 }.encode()
}

/// Encodes `cpop rd, rs`: count the bits set.
pub fn cpop(rd: Register, rs: Register) -> (word: u32)
    ensures
        word == (IType {
            opcode: Opcode::OpImm,
            funct3: 0b001,
            rd,
            rs,
            imm12: 0b0110000_00010,
        }).word(),
{
    proof {
        lemma2_to64();
    }
    IType { opcode: Opcode::OpImm, funct3: 0b001, rd, rs, imm12: 0b0110000_00010 }.encode()
}

/// Encodes `ctz rd, rs`: count the trailing zeros.
pub fn ctz(rd: Register, rs: Register) -> (word: u32)
    ensures
        word == (IType {
            opcode: Opcode::OpImm,
            funct3: 0b001,
            rd,
            rs,
            imm12: 0b0110000_00001,
        }).word(),
{
    proof {
        lemma2_to64();
    }
    IType { opcode: Opcode::OpImm, funct3: 0b001, rd, rs, imm12: 0b0110000_00001 }.encode()
}

/// Encodes `max rd, rs1, rs2`: maximum, signed.
pub fn max(rd: Register, rs1: Register, rs2: Register) -> (word: u32)
    ensures
        word == (RType {
            opcode: Opcode::Op,
            funct3: 0b110,
            funct7: 0b0000101,
            rd,
            rs1,
            rs2,
        }).word(),
{
    RType { opcode: Opcode::Op, funct3: 0b110, funct7: 0b0000101, rd, rs1, rs2 }.encode()
}

/// Encodes `maxu rd, rs1, rs2`: maximum, unsigned.
pub fn maxu(rd: Register, rs1: Register, rs2: Register) -> (word: u32)
    ensures
        word == (RType {
            opcode: Opcode::Op,
            funct3: 0b111,
            funct7: 0b0000101,
            rd,
            rs1,
            rs2,
        }).word(),
{
    RType { opcode: Opcode::Op, funct3: 0b111, funct7: 0b0000101, rd, rs1, rs2 }.encode()
}

/// Encodes `min rd, rs1, rs2`: minimum, signed.
pub fn min(rd: Register, rs1: Register, rs2: Register) -> (word: u32)
    ensures
        word == (RType {
            opcode: Opcode::Op,
            funct3: 0b100,
            funct7: 0b0000101,
            rd,
            rs1,
            rs2,
        }).word(),
{
    RType { opcode: Opcode::Op, funct3: 0b100, funct7: 0b0000101, rd, rs1, rs2 }.encode()
}

/// Encodes `minu rd, rs1, rs2`: minimum, unsigned.
pub fn minu(rd: Register, rs1: Register, rs2: Register) -> (word: u32)
    ensures
        word == (RType {
            opcode: Opcode::Op,
            funct3: 0b101,
            funct7: 0b0000101,
            rd,
            rs1,
            rs2,
        }).word(),
{
    RType { opcode: Opcode::Op, funct3: 0b101, funct7: 0b0000101, rd, rs1, rs2 }.encode()
}

/// Encodes `orc.b rd, rs`: or-combine within each byte.
pub fn orc_b(rd: Register, rs: Register) -> (word: u32)
    ensures
        word == (IType {
            opcode: Opcode::OpImm,
            funct3: 0b101,
            rd,
            rs,
            imm12: 0b0010100_00111,
        }).word(),
{
    proof {
        lemma2_to64();
    }
    IType { opcode: Opcode::OpImm, funct3: 0b101, rd, rs, imm12: 0b0010100_00111 }.encode()
}

/// Encodes `orn rd, rs1, rs2`: or with the complement.
pub fn orn(rd: Register, rs1: Register, rs2: Register) -> (word: u32)
    ensures
        word == (RType {
            opcode: Opcode::Op,
            funct3: 0b110,
            funct7: 0b0100000,
            rd,
            rs1,
            rs2,
        }).word(),
{
    RType { opcode: Opcode::Op, funct3: 0b110, funct7: 0b0100000, rd, rs1, rs2 }.encode()
}

/// Encodes `rev8 rd, rs`: reverse the bytes.
pub fn rev8(rd: Register, rs: Register) -> (word: u32)
    ensures
        word == (IType {
            opcode: Opcode::OpImm,
            funct3: 0b101,
            rd,
            rs,
            imm12: 0b0110100_11000,
        }).word(),
{
    proof {
        lemma2_to64();
    }
    IType { opcode: Opcode::OpImm, funct3: 0b101, rd, rs, imm12: 0b0110100_11000 }.encode()
}

/// Encodes `rol rd, rs1, rs2`: rotate left.
pub fn rol(rd: Register, rs1: Register, rs2: Register) -> (word: u32)
    ensures
        word == (RType {
            opcode: Opcode::Op,
            funct3: 0b001,
            funct7: 0b0110000,
            rd,
            rs1,
            rs2,
        }).word(),
{
    RType { opcode: Opcode::Op, funct3: 0b001, funct7: 0b0110000, rd, rs1, rs2 }.encode()
}

/// Encodes `ror rd, rs1, rs2`: rotate right.
pub fn ror(rd: Register, rs1: Register, rs2: Register) -> (word: u32)
    ensures
        word == (RType {
            opcode: Opcode::Op,
            funct3: 0b101,
            funct7: 0b0110000,
            rd,
            rs1,
            rs2,
        }).word(),
{
    RType { opcode: Opcode::Op, funct3: 0b101, funct7: 0b0110000, rd, rs1, rs2 }.encode()
}

/// Encodes `rori rd, rs, shamt`: rotate right. Of `shamt` the 5 low bits are encoded.
pub fn rori(rd: Register, rs: Register, shamt: u8) -> (word: u32)
    ensures
        word == (IType {
            opcode: Opcode::OpImm,
            funct3: 0b101,
            rd,
            rs,
            imm12: shift_imm(0b0110000,
            shamt,
            5),
        }).word(),
{
    let imm12: i16 = shift_imm12_5(0b0110000, shamt);
    IType { opcode: Opcode::OpImm, funct3: 0b101, rd, rs, imm12 }.encode()
}

/// Encodes `sext.b rd, rs`: sign-extend the low byte.
pub fn sext_b(rd: Register, rs: Register) -> (word: u32)
    ensures
        word == (IType {
            opcode: Opcode::OpImm,
            funct3: 0b001,
            rd,
            rs,
            imm12: 0b0110000_00100,
        }).word(),
{
    proof {
        lemma2_to64();
    }
    IType { opcode: Opcode::OpImm, funct3: 0b001, rd, rs, imm12: 0b0110000_00100 }.encode()
}

/// Encodes `sext.h rd, rs`: sign-extend the low half word.
pub fn sext_h(rd: Register, rs: Register) -> (word: u32)
    ensures
        word == (IType {
            opcode: Opcode::OpImm,
            funct3: 0b001,
            rd,
            rs,
            imm12: 0b0110000_00101,
        }).word(),
{
    proof {
        lemma2_to64();
    }
    IType { opcode: Opcode::OpImm, funct3: 0b001, rd, rs, imm12: 0b0110000_00101 }.encode()
}

/// Encodes `xnor rd, rs1, rs2`: exclusive nor.
pub fn xnor(rd: Register, rs1: Register, rs2: Register) -> (word: u32)
    ensures
        word == (RType {
            opcode: Opcode::Op,
            funct3: 0b100,
            funct7: 0b0100000,
            rd,
            rs1,
            rs2,
        }).word(),
{
    RType { opcode: Opcode::Op, funct3: 0b100, funct7: 0b0100000, rd, rs1, rs2 }.encode()
}

/// Encodes `zext.h rd, rs`: zero-extend the low half word.
pub fn zext_h(rd: Register, rs: Register) -> (word: u32)
    ensures
        word == (IType {
            opcode: Opcode::Op,
            funct3: 0b100,
            rd,
            rs,
            imm12: 0b0000100_00000,
        }).word(),
{
    proof {
        lemma2_to64();
    }
    IType { opcode: Opcode::Op, funct3: 0b100, rd, rs, imm12: 0b0000100_00000 }.encode()
}

} // verus!
