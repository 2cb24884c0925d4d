//! The compressed instructions of the 32-bit instruction set.

use vstd::prelude::*;
use vstd::arithmetic::power2::lemma2_to64;
use crate::encoding::{
    append_field, field, fits_signed, i1, i2, i3, i4, i5, BitBuffer, CaType, CbType, CiType,
    CjType, CrType,
};
use crate::types::{CRegister, Register};

verus! {

/// Encodes `c.unimp`: the word of all zeros, which is no instruction.
pub fn unimp() -> (word: u16)
    ensures
        word == 0,
{
    0
}

/// The word of `c.addi4spn`, with the fields
/// `000 | imm[5:4] | imm[9:6] | imm[2] | imm[3] | rd | 00`, from the most
/// significant bit down.
pub open spec fn addi4spn_word(rd: u32, imm: u16) -> u32 {
    field(0b000, 0, 3, 13)
        | field(imm as u32, 4, 2, 11)
        | field(imm as u32, 6, 4, 7)
        | field(imm as u32, 2, 1, 6)
        | field(imm as u32, 3, 1, 5)
        | field(rd, 0, 3, 2)
        | field(0b00, 0, 2, 0)
}

/// Appending these fields, the most significant first, gives the word
/// that `addi4spn_word` lays out.
proof fn lemma_addi4spn_composed(rd: u32, imm: u16)
    by (bit_vector)
    ensures
        append_field(
            append_field(
                append_field(
                    append_field(
                        append_field(
                            append_field(
                                append_field(0u32, 0b000u32 & 0x7, 3),
                                ((imm >> 4) as u32) & 0x3,
                                2,
                            ),
                            ((imm >> 6) as u32) & 0xf,
                            4,
                        ),
                        ((imm >> 2) as u32) & 0x1,
                        1,
                    ),
                    ((imm >> 3) as u32) & 0x1,
                    1,
                ),
                rd & 0x7,
                3,
            ),
            0b00u32 & 0x3,
            2,
        ) == addi4spn_word(rd, imm),
        addi4spn_word(rd, imm) <= 0xffff,
{
}

/// Encodes `c.addi4spn rd, sp, imm`: add a multiple of 4 to the stack
/// pointer. Bits 2 to 9 of `imm` are encoded.
pub fn addi4spn(rd: CRegister, imm: u16) -> (word: u16)
    ensures
        word == addi4spn_word(rd.spec_c_index(), imm) as u16,
{
    let rd: u32 = rd.c_index();
    let mut bits = BitBuffer::new();
    bits.push(i3(0b000));
    bits.push(i2((imm >> 4) as u32));
    bits.push(i4((imm >> 6) as u32));
    bits.push(i1((imm >> 2) as u32));
    bits.push(i1((imm >> 3) as u32));
    bits.push(i3(rd));
    bits.push(i2(0b00));
    proof {
        lemma_addi4spn_composed(rd, imm);
    }
    bits.bits as u16
}

/// The word of a compressed load or store of a word, with the fields
/// `funct3 | offset[5:3] | base | offset[2] | offset[6] | rd | 00`, from the
/// most significant bit down.
pub open spec fn word_access_word(funct3: u32, rd: u32, base: u32, offset: u8) -> u32 {
    field(funct3, 0, 3, 13)
        | field(offset as u32, 3, 3, 10)
        | field(base, 0, 3, 7)
        | field(offset as u32, 2, 1, 6)
        | field(offset as u32, 6, 1, 5)
        | field(rd, 0, 3, 2)
        | field(0b00, 0, 2, 0)
}

/// Appending these fields, the most significant first, gives the word
/// that `word_access_word` lays out.
proof fn lemma_word_access_composed(funct3: u32, rd: u32, base: u32, offset: u8)
    by (bit_vector)
    ensures
        append_field(
            append_field(
                append_field(
                    append_field(
                        append_field(
                            append_field(
                                append_field(0u32, funct3 & 0x7, 3),
                                ((offset >> 3) as u32) & 0x7,
                                3,
                            ),
                            base & 0x7,
                            3,
                        ),
                        ((offset >> 2) as u32) & 0x1,
                        1,
                    ),
                    ((offset >> 6) as u32) & 0x1,
                    1,
                ),
                rd & 0x7,
                3,
            ),
            0b00u32 & 0x3,
            2,
        ) == word_access_word(funct3, rd, base, offset),
        word_access_word(funct3, rd, base, offset) <= 0xffff,
{
}

/// Encodes `c.lw rd, offset(base)`: load a word. Bits 2 to 6 of `offset` are
/// encoded.
pub fn lw(rd: CRegister, base: CRegister, offset: u8) -> (word: u16)
    ensures
        word == word_access_word(0b010, rd.spec_c_index(), base.spec_c_index(), offset) as u16,
{
    let rd: u32 = rd.c_index();
    let base: u32 = base.c_index();
    let mut bits = BitBuffer::new();
    bits.push(i3(0b010));
    bits.push(i3((offset >> 3) as u32));
    bits.push(i3(base));
    bits.push(i1((offset >> 2) as u32));
    bits.push(i1((offset >> 6) as u32));
    bits.push(i3(rd));
    bits.push(i2(0b00));
    proof {
        lemma_word_access_composed(0b010, rd, base, offset);
    }
    bits.bits as u16
}

/// Encodes `c.sw rd, offset(base)`: store a word. Bits 2 to 6 of `offset` are
/// encoded.
pub fn sw(rd: CRegister, base: CRegister, offset: u8) -> (word: u16)
    ensures
        word == word_access_word(0b110, rd.spec_c_index(), base.spec_c_index(), offset) as u16,
{
    let rd: u32 = rd.c_index();
    let base: u32 = base.c_index();
    let mut bits = BitBuffer::new();
    bits.push(i3(0b110));
    bits.push(i3((offset >> 3) as u32));
    bits.push(i3(base));
    bits.push(i1((offset >> 2) as u32));
    bits.push(i1((offset >> 6) as u32));
    bits.push(i3(rd));
    bits.push(i2(0b00));
    proof {
        lemma_word_access_composed(0b110, rd, base, offset);
    }
    bits.bits as u16
}

/// Encodes `c.nop`: do nothing.
pub fn nop() -> (word: u16)
    ensures
        word == (CiType { op: 0b01, rd: Register::Zero, imm: 0, funct3: 0b000 }).word(),
{
    CiType { op: 0b01, rd: Register::Zero, imm: 0, funct3: 0b000 }.encode()
}

/// Encodes `c.addi rd, imm`: add the signed 6-bit immediate.
pub fn addi(rd: Register, imm: i8) -> (word: u16)
    requires
        fits_signed(6, imm as int),
    ensures
        word == (CiType { op: 0b01, rd, imm, funct3: 0b000 }).word(),
{
    proof {
        lemma2_to64();
    }
    CiType { op: 0b01, rd, imm, funct3: 0b000 }.encode()
}

/// Encodes `c.li rd, imm`: load the signed 6-bit immediate.
pub fn li(rd: Register, imm: i8) -> (word: u16)
    requires
        fits_signed(6, imm as int),
    ensures
        word == (CiType { op: 0b01, rd, imm, funct3: 0b010 }).word(),
{
    proof {
        lemma2_to64();
    }
    CiType { op: 0b01, rd, imm, funct3: 0b010 }.encode()
}

/// The word of `c.addi16sp`, with the fields
/// `011 | imm[9] | 00010 | imm[4] | imm[6] | imm[8:7] | imm[5] | 01`, from the
/// most significant bit down.
pub open spec fn addi16sp_word(imm: i16) -> u32 {
    field(0b011, 0, 3, 13)
        | field(imm as u32, 9, 1, 12)
        | field(2, 0, 5, 7)
        | field(imm as u32, 4, 1, 6)
        | field(imm as u32, 6, 1, 5)
        | field(imm as u32, 7, 2, 3)
        | field(imm as u32, 5, 1, 2)
        | field(0b01, 0, 2, 0)
}

/// Appending these fields, the most significant first, gives the word
/// that `addi16sp_word` lays out.
proof fn lemma_addi16sp_composed(imm: i16)
    by (bit_vector)
    ensures
        append_field(
            append_field(
                append_field(
                    append_field(
                        append_field(
                            append_field(
                                append_field(
                                    append_field(0u32, 0b011u32 & 0x7, 3),
                                    ((imm >> 9) as u32) & 0x1,
                                    1,
                                ),
                                2u32 & 0x1f,
                                5,
                            ),
                            ((imm >> 4) as u32) & 0x1,
                            1,
                        ),
                        ((imm >> 6) as u32) & 0x1,
                        1,
                    ),
                    ((imm >> 7) as u32) & 0x3,
                    2,
                ),
                ((imm >> 5) as u32) & 0x1,
                1,
            ),
            0b01u32 & 0x3,
            2,
        ) == addi16sp_word(imm),
        addi16sp_word(imm) <= 0xffff,
{
}

/// Encodes `c.addi16sp sp, imm`: add a multiple of 16 to the stack
/// pointer. Of the signed 10-bit immediate, bits 4 to 9 are encoded.
pub fn addi16sp(imm: i16) -> (word: u16)
    requires
        fits_signed(10, imm as int),
    ensures
        word == addi16sp_word(imm) as u16,
{
    let mut bits = BitBuffer::new();
    bits.push(i3(0b011));
    bits.push(i1((imm >> 9) as u32));
    bits.push(i5(2));
    bits.push(i1((imm >> 4) as u32));
    bits.push(i1((imm >> 6) as u32));
    bits.push(i2((imm >> 7) as u32));
    bits.push(i1((imm >> 5) as u32));
    bits.push(i2(0b01));
    proof {
        lemma_addi16sp_composed(imm);
    }
    bits.bits as u16
}

/// Encodes `c.lui rd, imm`: load the signed 6-bit immediate into the
/// upper bits.
pub fn lui(rd: Register, imm: i8) -> (word: u16)
    requires
        fits_signed(6, imm as int),
    ensures
        word == (CiType { op: 0b01, rd, imm, funct3: 0b011 }).word(),
{
    proof {
        lemma2_to64();
    }
    CiType { op: 0b01, rd, imm, funct3: 0b011 }.encode()
}

/// The word of a compressed operation on a compressed register and a
/// 6-bit operand, with the fields
/// `100 | imm[5] | funct2 | rd | imm[4:0] | 01`, from the most significant
/// bit down.
pub open spec fn alu_imm_word(funct2: u32, rd: u32, imm: u32) -> u32 {
    field(0b100, 0, 3, 13)
        | field(imm, 5, 1, 12)
        | field(funct2, 0, 2, 10)
        | field(rd, 0, 3, 7)
        | field(imm, 0, 5, 2)
        | field(0b01, 0, 2, 0)
}

/// Appending these fields, the most significant first, gives the word
/// that `alu_imm_word` lays out.
proof fn lemma_shift_composed(funct2: u32, rd: u32, shamt: u8)
    by (bit_vector)
    ensures
        append_field(
            append_field(
                append_field(
                    append_field(
                        append_field(
                            append_field(0u32, 0b100u32 & 0x7, 3),
                            0u32 & 0x1,
                            1,
                        ),
                        funct2 & 0x3,
                        2,
                    ),
                    rd & 0x7,
                    3,
                ),
                (shamt as u32) & 0x1f,
                5,
            ),
            0b01u32 & 0x3,
            2,
        ) == alu_imm_word(funct2, rd, (shamt % 32) as u32),
        alu_imm_word(funct2, rd, (shamt % 32) as u32) <= 0xffff,
{
}

/// Appending these fields, the most significant first, gives the word
/// that `alu_imm_word` lays out.
proof fn lemma_andi_composed(rd: u32, imm: i8)
    by (bit_vector)
    ensures
        append_field(
            append_field(
                append_field(
                    append_field(
                        append_field(
                            append_field(0u32, 0b100u32 & 0x7, 3),
                            ((imm >> 5) as u32) & 0x1,
                            1,
                        ),
                        0b10u32 & 0x3,
                        2,
                    ),
                    rd & 0x7,
                    3,
                ),
                (imm as u32) & 0x1f,
                5,
            ),
            0b01u32 & 0x3,
            2,
        ) == alu_imm_word(0b10, rd, imm as u32),
        alu_imm_word(0b10, rd, imm as u32) <= 0xffff,
{
}

/// Encodes `c.srli rd, shamt`: shift right, filling with zeros. Of `shamt` the 5 low bits are
/// encoded.
pub fn srli(rd: CRegister, shamt: u8) -> (word: u16)
    ensures
        word == alu_imm_word(0b00, rd.spec_c_index(), (shamt % 32) as u32) as u16,
{
    let rd: u32 = rd.c_index();
    let mut bits = BitBuffer::new();
    bits.push(i3(0b100));
    bits.push(i1(0));
    bits.push(i2(0b00));
    bits.push(i3(rd));
    bits.push(i5(shamt as u32));
    bits.push(i2(0b01));
    proof {
        lemma_shift_composed(0b00, rd, shamt);
    }
    bits.bits as u16
}

/// Encodes `c.srai rd, shamt`: shift right, filling with the sign. Of `shamt` the 5 low bits are
/// encoded.
pub fn srai(rd: CRegister, shamt: u8) -> (word: u16)
    ensures
        word == alu_imm_word(0b01, rd.spec_c_index(), (shamt % 32) as u32) as u16,
{
    let rd: u32 = rd.c_index();
    let mut bits = BitBuffer::new();
    bits.push(i3(0b100));
    bits.push(i1(0));
    bits.push(i2(0b01));
    bits.push(i3(rd));
    bits.push(i5(shamt as u32));
    bits.push(i2(0b01));
    proof {
        lemma_shift_composed(0b01, rd, shamt);
    }
    bits.bits as u16
}

/// Encodes `c.andi rd, imm`: and with the signed 6-bit immediate.
pub fn andi(rd: CRegister, imm: i8) -> (word: u16)
    requires
        fits_signed(6, imm as int),
    ensures
        word == alu_imm_word(0b10, rd.spec_c_index(), imm as u32) as u16,
{
    let rd: u32 = rd.c_index();
    let mut bits = BitBuffer::new();
    bits.push(i3(0b100));
    bits.push(i1((imm >> 5) as u32));
    bits.push(i2(0b10));
    bits.push(i3(rd));
    bits.push(i5(imm as u32));
    bits.push(i2(0b01));
    proof {
        lemma_andi_composed(rd, imm);
    }
    bits.bits as u16
}

/// Encodes `c.sub rd, rs`: subtract.
pub fn sub(rd: CRegister, rs: CRegister) -> (word: u16)
    ensures
        word == (CaType { op: 0b01, rs, funct2: 0b00, rd, funct6: 0b100011 }).word(),
{
    CaType { op: 0b01, rs, funct2: 0b00, rd, funct6: 0b100011 }.encode()
}

/// Encodes `c.xor rd, rs`: exclusive or.
pub fn xor(rd: CRegister, rs: CRegister) -> (word: u16)
    ensures
        word == (CaType { op: 0b01, rs, funct2: 0b01, rd, funct6: 0b100011 }).word(),
{
    CaType { op: 0b01, rs, funct2: 0b01, rd, funct6: 0b100011 }.encode()
}

/// Encodes `c.or rd, rs`: or.
pub fn or(rd: CRegister, rs: CRegister) -> (word: u16)
    ensures
        word == (CaType { op: 0b01, rs, funct2: 0b10, rd, funct6: 0b100011 }).word(),
{
    CaType { op: 0b01, rs, funct2: 0b10, rd, funct6: 0b100011 }.encode()
}

/// Encodes `c.and rd, rs`: and.
pub fn and(rd: CRegister, rs: CRegister) -> (word: u16)
    ensures
        word == (CaType { op: 0b01, rs, funct2: 0b11, rd, funct6: 0b100011 }).word(),
{
    CaType { op: 0b01, rs, funct2: 0b11, rd, funct6: 0b100011 }.encode()
}

/// Encodes `c.j offset`: jump by the signed 12-bit offset, of which bits
/// 1 to 11 are encoded.
pub fn j(offset: i16) -> (word: u16)
    requires
        fits_signed(12, offset as int),
    ensures
        word == (CjType { op: 0b01, offset, funct3: 0b101 }).word(),
{
    CjType { op: 0b01, offset, funct3: 0b101 }.encode()
}

/// Encodes `c.beqz rs, offset`: branch if zero, by the signed 9-bit
/// offset, of which bits 1 to 8 are encoded.
pub fn beqz(rs: CRegister, offset: i16) -> (word: u16)
    requires
        fits_signed(9, offset as int),
    ensures
        word == (CbType { op: 0b01, rs, offset, funct3: 0b110 }).word(),
{
    CbType { op: 0b01, rs, offset, funct3: 0b110 }.encode()
}

/// Encodes `c.bnez rs, offset`: branch if not zero, by the signed 9-bit
/// offset, of which bits 1 to 8 are encoded.
pub fn bnez(rs: CRegister, offset: i16) -> (word: u16)
    requires
        fits_signed(9, offset as int),
    ensures
        word == (CbType { op: 0b01, rs, offset, funct3: 0b111 }).word(),
{
    CbType { op: 0b01, rs, offset, funct3: 0b111 }.encode()
}

/// Encodes `c.slli rd, shamt`: shift left. Of `shamt` the 5 low bits are
/// encoded.
pub fn slli(rd: Register, shamt: u8) -> (word: u16)
    ensures
        word == (CiType { op: 0b10, rd, imm: (shamt % 32) as i8, funct3: 0b000 }).word(),
{
    CiType { op: 0b10, rd, imm: (shamt % 32) as i8, funct3: 0b000 }.encode()
}

/// The word of `c.lwsp`, with the fields
/// `010 | offset[5] | rd | offset[4:2] | offset[7:6] | 10`, from the most
/// significant bit down.
pub open spec fn lwsp_word(rd: u32, offset: u8) -> u32 {
    field(0b010, 0, 3, 13)
        | field(offset as u32, 5, 1, 12)
        | field(rd, 0, 5, 7)
        | field(offset as u32, 2, 3, 4)
        | field(offset as u32, 6, 2, 2)
        | field(0b10, 0, 2, 0)
}

/// Appending these fields, the most significant first, gives the word
/// that `lwsp_word` lays out.
proof fn lemma_lwsp_composed(rd: u32, offset: u8)
    by (bit_vector)
    ensures
        append_field(
            append_field(
                append_field(
                    append_field(
                        append_field(
                            append_field(0u32, 0b010u32 & 0x7, 3),
                            ((offset >> 5) as u32) & 0x1,
                            1,
                        ),
                        rd & 0x1f,
                        5,
                    ),
                    ((offset >> 2) as u32) & 0x7,
                    3,
                ),
                ((offset >> 6) as u32) & 0x3,
                2,
            ),
            0b10u32 & 0x3,
            2,
        ) == lwsp_word(rd, offset),
        lwsp_word(rd, offset) <= 0xffff,
{
}

/// Encodes `c.lwsp rd, offset(sp)`: load a word from the stack. Bits 2 to
/// 7 of `offset` are encoded.
pub fn lwsp(rd: Register, offset: u8) -> (word: u16)
    ensures
        word == lwsp_word(rd.spec_index(), offset) as u16,
{
    let rd: u32 = rd.index();
    let mut bits = BitBuffer::new();
    bits.push(i3(0b010));
    bits.push(i1((offset >> 5) as u32));
    bits.push(i5(rd));
    bits.push(i3((offset >> 2) as u32));
    bits.push(i2((offset >> 6) as u32));
    bits.push(i2(0b10));
    proof {
        lemma_lwsp_composed(rd, offset);
    }
    bits.bits as u16
}

/// Encodes `c.jr rs`: jump to the register.
pub fn jr(rs: Register) -> (word: u16)
    ensures
        word == (CrType { op: 0b10, rs: Register::Zero, rd: rs, funct4: 0b1000 }).word(),
{
    CrType { op: 0b10, rs: Register::Zero, rd: rs, funct4: 0b1000 }.encode()
}

/// Encodes `c.mv rd, rs`: copy a register.
pub fn mv(rd: Register, rs: Register) -> (word: u16)
    ensures
        word == (CrType { op: 0b10, rs, rd, funct4: 0b1000 }).word(),
{
    CrType { op: 0b10, rs, rd, funct4: 0b1000 }.encode()
}

/// Encodes `c.ebreak`: break into the debugger.
pub fn ebreak() -> (word: u16)
    ensures
        word == (CrType {
            op: 0b10,
            rs: Register::Zero,
            rd: Register::Zero,
            funct4: 0b1001,
        }).word(),
{
    CrType { op: 0b10, rs: Register::Zero, rd: Register::Zero, funct4: 0b1001 }.encode()
}

/// Encodes `c.jalr rs`: jump to the register and link.
pub fn jalr(rs: Register) -> (word: u16)
    ensures
        word == (CrType { op: 0b10, rs: Register::Zero, rd: rs, funct4: 0b1001 }).word(),
{
    CrType { op: 0b10, rs: Register::Zero, rd: rs, funct4: 0b1001 }.encode()
}

/// Encodes `c.add rd, rs`: add.
pub fn add(rd: Register, rs: Register) -> (word: u16)
    ensures
        word == (CrType { op: 0b10, rs, rd, funct4: 0b1001 }).word(),
{
    CrType { op: 0b10, rs, rd, funct4: 0b1001 }.encode()
}

/// The word of `c.swsp`, with the fields
/// `110 | offset[5:2] | offset[7:6] | rs | 10`, from the most significant
/// bit down.
pub open spec fn swsp_word(rs: u32, offset: u8) -> u32 {
    field(0b110, 0, 3, 13)
        | field(offset as u32, 2, 4, 9)
        | field(offset as u32, 6, 2, 7)
        | field(rs, 0, 5, 2)
        | field(0b10, 0, 2, 0)
}

/// Appending these fields, the most significant first, gives the word
/// that `swsp_word` lays out.
proof fn lemma_swsp_composed(rs: u32, offset: u8)
    by (bit_vector)
    ensures
        append_field(
            append_field(
                append_field(
                    append_field(
                        append_field(0u32, 0b110u32 & 0x7, 3),
                        ((offset >> 2) as u32) & 0xf,
                        4,
                    ),
                    ((offset >> 6) as u32) & 0x3,
                    2,
                ),
                rs & 0x1f,
                5,
            ),
            0b10u32 & 0x3,
            2,
        ) == swsp_word(rs, offset),
        swsp_word(rs, offset) <= 0xffff,
{
}

/// Encodes `c.swsp rs, offset(sp)`: store a word to the stack. Bits 2 to 7
/// of `offset` are encoded.
pub fn swsp(rs: Register, offset: u8) -> (word: u16)
    ensures
        word == swsp_word(rs.spec_index(), offset) as u16,
{
    let rs: u32 = rs.index();
    let mut bits = BitBuffer::new();
    bits.push(i3(0b110));
    bits.push(i4((offset >> 2) as u32));
    bits.push(i2((offset >> 6) as u32));
    bits.push(i5(rs));
    bits.push(i2(0b10));
    proof {
        lemma_swsp_composed(rs, offset);
    }
    bits.bits as u16
}

} // verus!
