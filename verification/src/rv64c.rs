//! The compressed instructions that the 64-bit instruction set adds or encodes differently.

use vstd::prelude::*;
use vstd::arithmetic::power2::lemma2_to64;
use crate::encoding::{
    append_field, field, fits_signed, i1, i2, i3, i5, BitBuffer, CaType, CiType,
};
use crate::rv32c::alu_imm_word;
use crate::types::{CRegister, Register};

verus! {

/// The word of a compressed load or store of a double word, with the
/// fields `funct3 | offset[5:3] | base | offset[7:6] | rd | 00`, from the
/// most significant bit down.
pub open spec fn double_access_word(funct3: u32, rd: u32, base: u32, offset: u8) -> u32 {
    field(funct3, 0, 3, 13)
        | field(offset as u32, 3, 3, 10)
        | field(base, 0, 3, 7)
        | field(offset as u32, 6, 2, 5)
        | field(rd, 0, 3, 2)
        | field(0b00, 0, 2, 0)
}

/// Appending these fields, the most significant first, gives the word
/// that `double_access_word` lays out.
proof fn lemma_double_access_composed(funct3: u32, rd: u32, base: u32, offset: u8)
    by (bit_vector)
    ensures
        append_field(
            append_field(
                append_field(
                    append_field(
                        append_field(
                            append_field(0u32, funct3 & 0x7, 3),
                            ((offset >> 3) as u32) & 0x7,
                            3,
                        ),
                        base & 0x7,
                        3,
                    ),
                    ((offset >> 6) as u32) & 0x3,
                    2,
                ),
                rd & 0x7,
                3,
            ),
            0b00u32 & 0x3,
            2,
        ) == double_access_word(funct3, rd, base, offset),
        double_access_word(funct3, rd, base, offset) <= 0xffff,
{
}

/// Encodes `c.ld rd, offset(base)`: load a double word. Bits 3 to 7 of `offset` are
/// encoded.
pub fn ld(rd: CRegister, base: CRegister, offset: u8) -> (word: u16)
    ensures
        word == double_access_word(0b011, rd.spec_c_index(), base.spec_c_index(), offset) as u16,
{
    let rd: u32 = rd.c_index();
    let base: u32 = base.c_index();
    let mut bits = BitBuffer::new();
    bits.push(i3(0b011));
    bits.push(i3((offset >> 3) as u32));
    bits.push(i3(base));
    bits.push(i2((offset >> 6) as u32));
    bits.push(i3(rd));
    bits.push(i2(0b00));
    proof {
        lemma_double_access_composed(0b011, rd, base, offset);
    }
    bits.bits as u16
}

/// Encodes `c.sd rd, offset(base)`: store a double word. Bits 3 to 7 of `offset` are
/// encoded.
pub fn sd(rd: CRegister, base: CRegister, offset: u8) -> (word: u16)
    ensures
        word == double_access_word(0b111, rd.spec_c_index(), base.spec_c_index(), offset) as u16,
{
    let rd: u32 = rd.c_index();
    let base: u32 = base.c_index();
    let mut bits = BitBuffer::new();
    bits.push(i3(0b111));
    bits.push(i3((offset >> 3) as u32));
    bits.push(i3(base));
    bits.push(i2((offset >> 6) as u32));
    bits.push(i3(rd));
    bits.push(i2(0b00));
    proof {
        lemma_double_access_composed(0b111, rd, base, offset);
    }
    bits.bits as u16
}

/// Encodes `c.addiw rd, imm`: add the signed 6-bit immediate to a word.
pub fn addiw(rd: Register, imm: i8) -> (word: u16)
    requires
        fits_signed(6, imm as int),
    ensures
        word == (CiType { op: 0b01, rd, imm, funct3: 0b001 }).word(),
{
    proof {
        lemma2_to64();
    }
    CiType { op: 0b01, rd, imm, funct3: 0b001 }.encode()
}

/// Appending these fields, the most significant first, gives the word
/// that `alu_imm_word` lays out.
proof fn lemma_shift_composed(funct2: u32, rd: u32, shamt: u8)
    by (bit_vector)
    ensures
        append_field(
            append_field(
                append_field(
                    append_field(
                        append_field(
                            append_field(0u32, 0b100u32 & 0x7, 3),
                            ((shamt >> 5) as u32) & 0x1,
                            1,
                        ),
                        funct2 & 0x3,
                        2,
                    ),
                    rd & 0x7,
                    3,
                ),
                (shamt as u32) & 0x1f,
                5,
            ),
            0b01u32 & 0x3,
            2,
        ) == alu_imm_word(funct2, rd, shamt as u32),
        alu_imm_word(funct2, rd, shamt as u32) <= 0xffff,
{
}

/// Encodes `c.srli rd, shamt`: shift right, filling with zeros. Of `shamt` the 6 low bits are
/// encoded.
pub fn srli(rd: CRegister, shamt: u8) -> (word: u16)
    ensures
        word == alu_imm_word(0b00, rd.spec_c_index(), shamt as u32) as u16,
{
    let rd: u32 = rd.c_index();
    let mut bits = BitBuffer::new();
    bits.push(i3(0b100));
    bits.push(i1((shamt >> 5) as u32));
    bits.push(i2(0b00));
    bits.push(i3(rd));
    bits.push(i5(shamt as u32));
    bits.push(i2(0b01));
    proof {
        lemma_shift_composed(0b00, rd, shamt);
    }
    bits.bits as u16
}

/// Encodes `c.srai rd, shamt`: shift right, filling with the sign. Of `shamt` the 6 low bits are
/// encoded.
pub fn srai(rd: CRegister, shamt: u8) -> (word: u16)
    ensures
        word == alu_imm_word(0b01, rd.spec_c_index(), shamt as u32) as u16,
{
    let rd: u32 = rd.c_index();
    let mut bits = BitBuffer::new();
    bits.push(i3(0b100));
    bits.push(i1((shamt >> 5) as u32));
    bits.push(i2(0b01));
    bits.push(i3(rd));
    bits.push(i5(shamt as u32));
    bits.push(i2(0b01));
    proof {
        lemma_shift_composed(0b01, rd, shamt);
    }
    bits.bits as u16
}

/// Encodes `c.subw rd, rs`: subtract words.
pub fn subw(rd: CRegister, rs: CRegister) -> (word: u16)
    ensures
        word == (CaType { op: 0b01, rs, funct2: 0b00, rd, funct6: 0b100111 }).word(),
{
    CaType { op: 0b01, rs, funct2: 0b00, rd, funct6: 0b100111 }.encode()
}

/// Encodes `c.addw rd, rs`: add words.
pub fn addw(rd: CRegister, rs: CRegister) -> (word: u16)
    ensures
        word == (CaType { op: 0b01, rs, funct2: 0b01, rd, funct6: 0b100111 }).word(),
{
    CaType { op: 0b01, rs, funct2: 0b01, rd, funct6: 0b100111 }.encode()
}

/// Encodes `c.slli rd, shamt`: shift left. Of `shamt` the 6 low bits are
/// encoded.
pub fn slli(rd: Register, shamt: u8) -> (word: u16)
    ensures
        word == (CiType { op: 0b10, rd, imm: (shamt % 64) as i8, funct3: 0b000 }).word(),
{
    CiType { op: 0b10, rd, imm: (shamt % 64) as i8, funct3: 0b000 }.encode()
}

/// The word of `c.ldsp`, with the fields
/// `011 | offset[5] | rd | offset[4:3] | offset[8:6] | 10`, from the most
/// significant bit down. An offset of 8 bits has no bit 8.
pub open spec fn ldsp_word(rd: u32, offset: u8) -> u32 {
    field(0b011, 0, 3, 13)
        | field(offset as u32, 5, 1, 12)
        | field(rd, 0, 5, 7)
        | field(offset as u32, 3, 2, 5)
        | field(offset as u32, 6, 3, 2)
        | field(0b10, 0, 2, 0)
}

/// Appending these fields, the most significant first, gives the word
/// that `ldsp_word` lays out.
proof fn lemma_ldsp_composed(rd: u32, offset: u8)
    by (bit_vector)
    ensures
        append_field(
            append_field(
                append_field(
                    append_field(
                        append_field(
                            append_field(0u32, 0b011u32 & 0x7, 3),
                            ((offset >> 5) as u32) & 0x1,
                            1,
                        ),
                        rd & 0x1f,
                        5,
                    ),
                    ((offset >> 3) as u32) & 0x3,
                    2,
                ),
                ((offset >> 6) as u32) & 0x7,
                3,
            ),
            0b10u32 & 0x3,
            2,
        ) == ldsp_word(rd, offset),
        ldsp_word(rd, offset) <= 0xffff,
{
}

/// Encodes `c.ldsp rd, offset(sp)`: load a double word from the stack.
/// Bits 3 to 7 of `offset` are encoded.
pub fn ldsp(rd: Register, offset: u8) -> (word: u16)
    ensures
        word == ldsp_word(rd.spec_index(), offset) as u16,
{
    let rd: u32 = rd.index();
    let mut bits = BitBuffer::new();
    bits.push(i3(0b011));
    bits.push(i1((offset >> 5) as u32));
    bits.push(i5(rd));
    bits.push(i2((offset >> 3) as u32));
    bits.push(i3((offset >> 6) as u32));
    bits.push(i2(0b10));
    proof {
        lemma_ldsp_composed(rd, offset);
    }
    bits.bits as u16
}

/// The word of `c.sdsp`, with the fields
/// `111 | offset[5:3] | offset[8:6] | rs | 10`, from the most significant
/// bit down. An offset of 8 bits has no bit 8.
pub open spec fn sdsp_word(rs: u32, offset: u8) -> u32 {
    field(0b111, 0, 3, 13)
        | field(offset as u32, 3, 3, 10)
        | field(offset as u32, 6, 3, 7)
        | field(rs, 0, 5, 2)
        | field(0b10, 0, 2, 0)
}

/// Appending these fields, the most significant first, gives the word
/// that `sdsp_word` lays out.
proof fn lemma_sdsp_composed(rs: u32, offset: u8)
    by (bit_vector)
    ensures
        append_field(
            append_field(
                append_field(
                    append_field(
                        append_field(0u32, 0b111u32 & 0x7, 3),
                        ((offset >> 3) as u32) & 0x7,
                        3,
                    ),
                    ((offset >> 6) as u32) & 0x7,
                    3,
                ),
                rs & 0x1f,
                5,
            ),
            0b10u32 & 0x3,
            2,
        ) == sdsp_word(rs, offset),
        sdsp_word(rs, offset) <= 0xffff,
{
}

/// Encodes `c.sdsp rs, offset(sp)`: store a double word to the stack.
/// Bits 3 to 7 of `offset` are encoded.
pub fn sdsp(rs: Register, offset: u8) -> (word: u16)
    ensures
        word == sdsp_word(rs.spec_index(), offset) as u16,
{
    let rs: u32 = rs.index();
    let mut bits = BitBuffer::new();
    bits.push(i3(0b111));
    bits.push(i3((offset >> 3) as u32));
    bits.push(i3((offset >> 6) as u32));
    bits.push(i5(rs));
    bits.push(i2(0b10));
    proof {
        lemma_sdsp_composed(rs, offset);
    }
    bits.bits as u16
}

/// Encodes `c.sext.w rd`: sign-extend a word, written as `c.addiw rd, 0`.
pub fn sext_w(rd: Register) -> (word: u16)
    ensures
        word == (CiType { op: 0b01, rd, imm: 0, funct3: 0b001 }).word(),
{
    proof {
        lemma2_to64();
    }
    addiw(rd, 0)
}

} // verus!
