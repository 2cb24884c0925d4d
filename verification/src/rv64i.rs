//! The base integer instructions that the 64-bit instruction set adds or encodes differently.

use vstd::prelude::*;
use vstd::arithmetic::power2::lemma2_to64;
use crate::encoding::{
    fits_signed, i20, i3, i5, i7, lemma_rtype_layout, lemma_utype_layout, rtype_word,
    shift_imm, shift_imm12_6, utype_word, BitBuffer, IType, Opcode, RType, SType, LUI,
};
use crate::types::Register;

verus! {

/// Encodes `lui rd, imm20`: load the signed 20-bit immediate into the
/// upper bits.
pub fn lui(rd: Register, imm20: i32) -> (word: u32)
    requires
        fits_signed(20, imm20 as int),
    ensures
        word == utype_word(LUI, rd.spec_index(), imm20 as u32),
{
    let rd: u32 = rd.index();
    let mut bits = BitBuffer::new();
    bits.push(i20(imm20 as u32));
    bits.push(i5(rd));
    bits.push(i7(LUI));
    proof {
        lemma_utype_layout(LUI, rd, imm20 as u32);
    }
    bits.bits
}

/// Encodes `lwu rd, offset(base)`: load a word, zero-extended.
pub fn lwu(rd: Register, base: Register, offset: i16) -> (word: u32)
    requires
        fits_signed(12, offset as int),
    ensures
        word == (IType { opcode: Opcode::Load, funct3: 0b110, rd, rs: base, imm12: offset }).word(),
{
    IType { opcode: Opcode::Load, funct3: 0b110, rd, rs: base, imm12: offset }.encode()
}

/// Encodes `ld rd, offset(base)`: load a double word.
pub fn ld(rd: Register, base: Register, offset: i16) -> (word: u32)
    requires
        fits_signed(12, offset as int),
    ensures
        word == (IType { opcode: Opcode::Load, funct3: 0b011, rd, rs: base, imm12: offset }).word(),
{
    IType { opcode: Opcode::Load, funct3: 0b011, rd, rs: base, imm12: offset }.encode()
}

/// Encodes `sd rs, offset(base)`: store a double word.
pub fn sd(rs: Register, base: Register, offset: i16) -> (word: u32)
    requires
        fits_signed(12, offset as int),
    ensures
        word == (SType { opcode: Opcode::Store, funct3: 0b011, rs, base, imm12: offset }).word(),
{
    SType { opcode: Opcode::Store, funct3: 0b011, rs, base, imm12: offset }.encode()
}

/// Encodes `slli rd, rs, shamt`: shift left. Of `shamt` the 6 low bits are encoded.
pub fn slli(rd: Register, rs: Register, shamt: u8) -> (word: u32)
    ensures
        word == (IType {
            opcode: Opcode::OpImm,
            funct3: 0b001,
            rd,
            rs,
            imm12: shift_imm(0b000000,
            shamt,
            6),
        }).word(),
{
    let imm12: i16 = shift_imm12_6(0b000000, shamt);
    IType { opcode: Opcode::OpImm, funct3: 0b001, rd, rs, imm12 }.encode()
}

/// Encodes `srli rd, rs, shamt`: shift right, filling with zeros. Of `shamt` the 6 low bits are encoded.
pub fn srli(rd: Register, rs: Register, shamt: u8) -> (word: u32)
    ensures
        word == (IType {
            opcode: Opcode::OpImm,
            funct3: 0b101,
            rd,
            rs,
            imm12: shift_imm(0b000000,
            shamt,
            6),
        }).word(),
{
    let imm12: i16 = shift_imm12_6(0b000000, shamt);
    IType { opcode: Opcode::OpImm, funct3: 0b101, rd, rs, imm12 }.encode()
}

/// Encodes `srai rd, rs, shamt`: shift right, filling with the sign. Of `shamt` the 6 low bits are encoded.
pub fn srai(rd: Register, rs: Register, shamt: u8) -> (word: u32)
    ensures
        word == (IType {
            opcode: Opcode::OpImm,
            funct3: 0b101,
            rd,
            rs,
            imm12: shift_imm(0b010000,
            shamt,
            6),
        }).word(),
{
    let imm12: i16 = shift_imm12_6(0b010000, shamt);
    IType { opcode: Opcode::OpImm, funct3: 0b101, rd, rs, imm12 }.encode()
}

/// Encodes `addiw rd, rs, imm12`: add the immediate to a word.
pub fn addiw(rd: Register, rs: Register, imm12: i16) -> (word: u32)
    requires
        fits_signed(12, imm12 as int),
    ensures
        word == (IType { opcode: Opcode::OpImm32, funct3: 0b000, rd, rs, imm12 }).word(),
{
    IType { opcode: Opcode::OpImm32, funct3: 0b000, rd, rs, imm12 }.encode()
}

/// Encodes `slliw rd, rs, shamt`: shift a word left. Of `shamt` the 5 low bits are
/// encoded, where a register-register operation holds its second source.
pub fn slliw(rd: Register, rs: Register, shamt: u8) -> (word: u32)
    ensures
        word == rtype_word(
            Opcode::OpImm32.spec_code(),
            0b001,
            0b0000000,
            rd.spec_index(),
            rs.spec_index(),
            shamt as u32,
        ),
{
    let rd: u32 = rd.index();
    let rs: u32 = rs.index();
    let mut bits = BitBuffer::new();
    bits.push(i7(0b0000000));
    bits.push(i5(shamt as u32));
    bits.push(i5(rs));
    bits.push(i3(0b001));
    bits.push(i5(rd));
    bits.push(i7(0b0011011));
    proof {
        lemma_rtype_layout(0b0011011, 0b001, 0b0000000, rd, rs, shamt as u32);
    }
    bits.bits
}

/// Encodes `srliw rd, rs, shamt`: shift a word right, filling with zeros. Of `shamt` the 5 low bits are
/// encoded, where a register-register operation holds its second source.
pub fn srliw(rd: Register, rs: Register, shamt: u8) -> (word: u32)
    ensures
        word == rtype_word(
            Opcode::OpImm32.spec_code(),
            0b101,
            0b0000000,
            rd.spec_index(),
            rs.spec_index(),
            shamt as u32,
        ),
{
    let rd: u32 = rd.index();
    let rs: u32 = rs.index();
    let mut bits = BitBuffer::new();
    bits.push(i7(0b0000000));
    bits.push(i5(shamt as u32));
    bits.push(i5(rs));
    bits.push(i3(0b101));
    bits.push(i5(rd));
    bits.push(i7(0b0011011));
    proof {
        lemma_rtype_layout(0b0011011, 0b101, 0b0000000, rd, rs, shamt as u32);
    }
    bits.bits
}

/// Encodes `sraiw rd, rs, shamt`: shift a word right, filling with the sign. Of `shamt` the 5 low bits are
/// encoded, where a register-register operation holds its second source.
pub fn sraiw(rd: Register, rs: Register, shamt: u8) -> (word: u32)
    ensures
        word == rtype_word(
            Opcode::OpImm32.spec_code(),
            0b101,
            0b0100000,
            rd.spec_index(),
            rs.spec_index(),
            shamt as u32,
        ),
{
    let rd: u32 = rd.index();
    let rs: u32 = rs.index();
    let mut bits = BitBuffer::new();
    bits.push(i7(0b0100000));
    bits.push(i5(shamt as u32));
    bits.push(i5(rs));
    bits.push(i3(0b101));
    bits.push(i5(rd));
    bits.push(i7(0b0011011));
    proof {
        lemma_rtype_layout(0b0011011, 0b101, 0b0100000, rd, rs, shamt as u32);
    }
    bits.bits
}

/// Encodes `addw rd, rs1, rs2`: add words.
pub fn addw(rd: Register, rs1: Register, rs2: Register) -> (word: u32)
    ensures
        word == (RType {
            opcode: Opcode::Op32,
            funct3: 0b000,
            funct7: 0b0000000,
            rd,
            rs1,
            rs2,
        }).word(),
{
    RType { opcode: Opcode::Op32, funct3: 0b000, funct7: 0b0000000, rd, rs1, rs2 }.encode()
}

/// Encodes `subw rd, rs1, rs2`: subtract words.
pub fn subw(rd: Register, rs1: Register, rs2: Register) -> (word: u32)
    ensures
        word == (RType {
            opcode: Opcode::Op32,
            funct3: 0b000,
            funct7: 0b0100000,
            rd,
            rs1,
            rs2,
        }).word(),
{
    RType { opcode: Opcode::Op32, funct3: 0b000, funct7: 0b0100000, rd, rs1, rs2 }.encode()
}

/// Encodes `sllw rd, rs1, rs2`: shift a word left.
pub fn sllw(rd: Register, rs1: Register, rs2: Register) -> (word: u32)
    ensures
        word == (RType {
            opcode: Opcode::Op32,
            funct3: 0b001,
            funct7: 0b0000000,
            rd,
            rs1,
            rs2,
        }).word(),
{
    RType { opcode: Opcode::Op32, funct3: 0b001, funct7: 0b0000000, rd, rs1, rs2 }.encode()
}

/// Encodes `srlw rd, rs1, rs2`: shift a word right, filling with zeros.
pub fn srlw(rd: Register, rs1: Register, rs2: Register) -> (word: u32)
    ensures
        word == (RType {
            opcode: Opcode::Op32,
            funct3: 0b101,
            funct7: 0b0000000,
            rd,
            rs1,
            rs2,
        }).word(),
{
    RType { opcode: Opcode::Op32, funct3: 0b101, funct7: 0b0000000, rd, rs1, rs2 }.encode()
}

/// Encodes `sraw rd, rs1, rs2`: shift a word right, filling with the sign.
pub fn sraw(rd: Register, rs1: Register, rs2: Register) -> (word: u32)
    ensures
        word == (RType {
            opcode: Opcode::Op32,
            funct3: 0b101,
            funct7: 0b0100000,
            rd,
            rs1,
            rs2,
        }).word(),
{
    RType { opcode: Opcode::Op32, funct3: 0b101, funct7: 0b0100000, rd, rs1, rs2 }.encode()
}

/// Encodes `negw rd, rs`: negate a word, written as `subw rd, zero, rs`.
pub fn negw(rd: Register, rs: Register) -> (word: u32)
    ensures
        word == (RType {
            opcode: Opcode::Op32,
            funct3: 0b000,
            funct7: 0b0100000,
            rd: rd,
            rs1: Register::Zero,
            rs2: rs,
        }).word(),
{
    subw(rd, Register::Zero, rs)
}

/// Encodes `sext.w rd, rs`: sign-extend a word, written as `addiw rd, rs, 0`.
pub fn sext_w(rd: Register, rs: Register) -> (word: u32)
    ensures
        word == (IType { opcode: Opcode::OpImm32, funct3: 0b000, rd: rd, rs: rs, imm12: 0 }).word(),
{
    proof {
        lemma2_to64();
    }
    addiw(rd, rs, 0)
}

} // verus!
