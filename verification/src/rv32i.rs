//! The base integer instructions of the 32-bit instruction set.

use vstd::prelude::*;
use vstd::arithmetic::power2::lemma2_to64;
use crate::encoding::{
    fits_signed, i1, i10, i20, i5, i7, i8, jtype_word, lemma_jtype_layout, lemma_utype_layout,
    shift_imm, shift_imm12_5, utype_word, BType, BitBuffer, IType, Opcode, RType, SType, AUIPC,
    JAL, LUI,
};
use crate::types::Register;

verus! {

/// Encodes `lui rd, imm20`: load the 20-bit immediate into the upper bits.
pub fn lui(rd: Register, imm20: u32) -> (word: u32)
    requires
        imm20 < 0x10_0000,
    ensures
        word == utype_word(LUI, rd.spec_index(), imm20),
{
    let rd: u32 = rd.index();
    let mut bits = BitBuffer::new();
    bits.push(i20(imm20));
    bits.push(i5(rd));
    bits.push(i7(LUI));
    proof {
        lemma_utype_layout(LUI, rd, imm20);
    }
    bits.bits
}

/// Encodes `auipc rd, imm20`: add the signed 20-bit immediate, moved up
/// by 12 bits, to the program counter.
pub fn auipc(rd: Register, imm20: i32) -> (word: u32)
    requires
        fits_signed(20, imm20 as int),
    ensures
        word == utype_word(AUIPC, rd.spec_index(), imm20 as u32),
{
    let rd: u32 = rd.index();
    let mut bits = BitBuffer::new();
    bits.push(i20(imm20 as u32));
    bits.push(i5(rd));
    bits.push(i7(AUIPC));
    proof {
        lemma_utype_layout(AUIPC, rd, imm20 as u32);
    }
    bits.bits
}

/// Encodes `jal rd, offset`: jump by the signed 21-bit offset and link.
pub fn jal(rd: Register, offset: i32) -> (word: u32)
    requires
        fits_signed(21, offset as int),
    ensures
        word == jtype_word(JAL, rd.spec_index(), offset),
{
    let rd: u32 = rd.index();
    let mut bits = BitBuffer::new();
    bits.push(i1((offset >> 20) as u32));
    bits.push(i10((offset >> 1) as u32));
    bits.push(i1((offset >> 11) as u32));
    bits.push(i8((offset >> 12) as u32));
    bits.push(i5(rd));
    bits.push(i7(JAL));
    proof {
        lemma_jtype_layout(JAL, rd, offset);
    }
    bits.bits
}

/// Encodes `jalr rd, offset(base)`: jump to the register plus the offset and link.
pub fn jalr(rd: Register, base: Register, offset: i16) -> (word: u32)
    requires
        fits_signed(12, offset as int),
    ensures
        word == (IType { opcode: Opcode::Jalr, funct3: 0b000, rd, rs: base, imm12: offset }).word(),
{
    IType { opcode: Opcode::Jalr, funct3: 0b000, rd, rs: base, imm12: offset }.encode()
}

/// Encodes `beq rs1, rs2, offset`: branch if equal.
pub fn beq(rs1: Register, rs2: Register, offset: i16) -> (word: u32)
    requires
        fits_signed(13, offset as int),
    ensures
        word == (BType { opcode: Opcode::Branch, funct3: 0b000, rs1, rs2, offset }).word(),
{
    BType { opcode: Opcode::Branch, funct3: 0b000, rs1, rs2, offset }.encode()
}

/// Encodes `bne rs1, rs2, offset`: branch if not equal.
pub fn bne(rs1: Register, rs2: Register, offset: i16) -> (word: u32)
    requires
        fits_signed(13, offset as int),
    ensures
        word == (BType { opcode: Opcode::Branch, funct3: 0b001, rs1, rs2, offset }).word(),
{
    BType { opcode: Opcode::Branch, funct3: 0b001, rs1, rs2, offset }.encode()
}

/// Encodes `blt rs1, rs2, offset`: branch if less, signed.
pub fn blt(rs1: Register, rs2: Register, offset: i16) -> (word: u32)
    requires
        fits_signed(13, offset as int),
    ensures
        word == (BType { opcode: Opcode::Branch, funct3: 0b100, rs1, rs2, offset }).word(),
{
    BType { opcode: Opcode::Branch, funct3: 0b100, rs1, rs2, offset }.encode()
}

/// Encodes `bge rs1, rs2, offset`: branch if greater or equal, signed.
pub fn bge(rs1: Register, rs2: Register, offset: i16) -> (word: u32)
    requires
        fits_signed(13, offset as int),
    ensures
        word == (BType { opcode: Opcode::Branch, funct3: 0b101, rs1, rs2, offset }).word(),
{
    BType { opcode: Opcode::Branch, funct3: 0b101, rs1, rs2, offset }.encode()
}

/// Encodes `bltu rs1, rs2, offset`: branch if less, unsigned.
pub fn bltu(rs1: Register, rs2: Register, offset: i16) -> (word: u32)
    requires
        fits_signed(13, offset as int),
    ensures
        word == (BType { opcode: Opcode::Branch, funct3: 0b110, rs1, rs2, offset }).word(),
{
    BType { opcode: Opcode::Branch, funct3: 0b110, rs1, rs2, offset }.encode()
}

/// Encodes `bgeu rs1, rs2, offset`: branch if greater or equal, unsigned.
pub fn bgeu(rs1: Register, rs2: Register, offset: i16) -> (word: u32)
    requires
        fits_signed(13, offset as int),
    ensures
        word == (BType { opcode: Opcode::Branch, funct3: 0b111, rs1, rs2, offset }).word(),
{
    BType { opcode: Opcode::Branch, funct3: 0b111, rs1, rs2, offset }.encode()
}

/// Encodes `lb rd, offset(base)`: load a byte, sign-extended.
pub fn lb(rd: Register, base: Register, offset: i16) -> (word: u32)
    requires
        fits_signed(12, offset as int),
    ensures
        word == (IType { opcode: Opcode::Load, funct3: 0b000, rd, rs: base, imm12: offset }).word(),
{
    IType { opcode: Opcode::Load, funct3: 0b000, rd, rs: base, imm12: offset }.encode()
}

/// Encodes `lh rd, offset(base)`: load a half word, sign-extended.
pub fn lh(rd: Register, base: Register, offset: i16) -> (word: u32)
    requires
        fits_signed(12, offset as int),
    ensures
        word == (IType { opcode: Opcode::Load, funct3: 0b001, rd, rs: base, imm12: offset }).word(),
{
    IType { opcode: Opcode::Load, funct3: 0b001, rd, rs: base, imm12: offset }.encode()
}

/// Encodes `lw rd, offset(base)`: load a word.
pub fn lw(rd: Register, base: Register, offset: i16) -> (word: u32)
    requires
        fits_signed(12, offset as int),
    ensures
        word == (IType { opcode: Opcode::Load, funct3: 0b010, rd, rs: base, imm12: offset }).word(),
{
    IType { opcode: Opcode::Load, funct3: 0b010, rd, rs: base, imm12: offset }.encode()
}

/// Encodes `lbu rd, offset(base)`: load a byte, zero-extended.
pub fn lbu(rd: Register, base: Register, offset: i16) -> (word: u32)
    requires
        fits_signed(12, offset as int),
    ensures
        word == (IType { opcode: Opcode::Load, funct3: 0b100, rd, rs: base, imm12: offset }).word(),
{
    IType { opcode: Opcode::Load, funct3: 0b100, rd, rs: base, imm12: offset }.encode()
}

/// Encodes `lhu rd, offset(base)`: load a half word, zero-extended.
pub fn lhu(rd: Register, base: Register, offset: i16) -> (word: u32)
    requires
        fits_signed(12, offset as int),
    ensures
        word == (IType { opcode: Opcode::Load, funct3: 0b101, rd, rs: base, imm12: offset }).word(),
{
    IType { opcode: Opcode::Load, funct3: 0b101, rd, rs: base, imm12: offset }.encode()
}

/// Encodes `sb rs, offset(base)`: store a byte.
pub fn sb(rs: Register, base: Register, offset: i16) -> (word: u32)
    requires
        fits_signed(12, offset as int),
    ensures
        word == (SType { opcode: Opcode::Store, funct3: 0b000, rs, base, imm12: offset }).word(),
{
    SType { opcode: Opcode::Store, funct3: 0b000, rs, base, imm12: offset }.encode()
}

/// Encodes `sh rs, offset(base)`: store a half word.
pub fn sh(rs: Register, base: Register, offset: i16) -> (word: u32)
    requires
        fits_signed(12, offset as int),
    ensures
        word == (SType { opcode: Opcode::Store, funct3: 0b001, rs, base, imm12: offset }).word(),
{
    SType { opcode: Opcode::Store, funct3: 0b001, rs, base, imm12: offset }.encode()
}

/// Encodes `sw rs, offset(base)`: store a word.
pub fn sw(rs: Register, base: Register, offset: i16) -> (word: u32)
    requires
        fits_signed(12, offset as int),
    ensures
        word == (SType { opcode: Opcode::Store, funct3: 0b010, rs, base, imm12: offset }).word(),
{
    SType { opcode: Opcode::Store, funct3: 0b010, rs, base, imm12: offset }.encode()
}

/// Encodes `addi rd, rs, imm12`: add the immediate.
pub fn addi(rd: Register, rs: Register, imm12: i16) -> (word: u32)
    requires
        fits_signed(12, imm12 as int),
    ensures
        word == (IType { opcode: Opcode::OpImm, funct3: 0b000, rd, rs, imm12 }).word(),
{
    IType { opcode: Opcode::OpImm, funct3: 0b000, rd, rs, imm12 }.encode()
}

/// Encodes `slti rd, rs, imm12`: set if less than the immediate, signed.
pub fn slti(rd: Register, rs: Register, imm12: i16) -> (word: u32)
    requires
        fits_signed(12, imm12 as int),
    ensures
        word == (IType { opcode: Opcode::OpImm, funct3: 0b010, rd, rs, imm12 }).word(),
{
    IType { opcode: Opcode::OpImm, funct3: 0b010, rd, rs, imm12 }.encode()
}

/// Encodes `sltiu rd, rs, imm12`: set if less than the immediate, unsigned.
pub fn sltiu(rd: Register, rs: Register, imm12: i16) -> (word: u32)
    requires
        fits_signed(12, imm12 as int),
    ensures
        word == (IType { opcode: Opcode::OpImm, funct3: 0b011, rd, rs, imm12 }).word(),
{
    IType { opcode: Opcode::OpImm, funct3: 0b011, rd, rs, imm12 }.encode()
}

/// Encodes `xori rd, rs, imm12`: exclusive or with the immediate.
pub fn xori(rd: Register, rs: Register, imm12: i16) -> (word: u32)
    requires
        fits_signed(12, imm12 as int),
    ensures
        word == (IType { opcode: Opcode::OpImm, funct3: 0b100, rd, rs, imm12 }).word(),
{
    IType { opcode: Opcode::OpImm, funct3: 0b100, rd, rs, imm12 }.encode()
}

/// Encodes `ori rd, rs, imm12`: or with the immediate.
pub fn ori(rd: Register, rs: Register, imm12: i16) -> (word: u32)
    requires
        fits_signed(12, imm12 as int),
    ensures
        word == (IType { opcode: Opcode::OpImm, funct3: 0b110, rd, rs, imm12 }).word(),
{
    IType { opcode: Opcode::OpImm, funct3: 0b110, rd, rs, imm12 }.encode()
}

/// Encodes `andi rd, rs, imm12`: and with the immediate.
pub fn andi(rd: Register, rs: Register, imm12: i16) -> (word: u32)
    requires
        fits_signed(12, imm12 as int),
    ensures
        word == (IType { opcode: Opcode::OpImm, funct3: 0b111, rd, rs, imm12 }).word(),
{
    IType { opcode: Opcode::OpImm, funct3: 0b111, rd, rs, imm12 }.encode()
}

/// Encodes `slli rd, rs, shamt`: shift left. Of `shamt` the 5 low bits are encoded.
pub fn slli(rd: Register, rs: Register, shamt: u8) -> (word: u32)
    ensures
        word == (IType {
            opcode: Opcode::OpImm,
            funct3: 0b001,
            rd,
            rs,
            imm12: shift_imm(0b0000000,
            shamt,
            5),
        }).word(),
{
    let imm12: i16 = shift_imm12_5(0b0000000, shamt);
    IType { opcode: Opcode::OpImm, funct3: 0b001, rd, rs, imm12 }.encode()
}

/// Encodes `srli rd, rs, shamt`: shift right, filling with zeros. Of `shamt` the 5 low bits are encoded.
pub fn srli(rd: Register, rs: Register, shamt: u8) -> (word: u32)
    ensures
        word == (IType {
            opcode: Opcode::OpImm,
            funct3: 0b101,
            rd,
            rs,
            imm12: shift_imm(0b0000000,
            shamt,
            5),
        }).word(),
{
    let imm12: i16 = shift_imm12_5(0b0000000, shamt);
    IType { opcode: Opcode::OpImm, funct3: 0b101, rd, rs, imm12 }.encode()
}

/// Encodes `srai rd, rs, shamt`: shift right, filling with the sign. Of `shamt` the 5 low bits are encoded.
pub fn srai(rd: Register, rs: Register, shamt: u8) -> (word: u32)
    ensures
        word == (IType {
            opcode: Opcode::OpImm,
            funct3: 0b101,
            rd,
            rs,
            imm12: shift_imm(0b0100000,
            shamt,
            5),
        }).word(),
{
    let imm12: i16 = shift_imm12_5(0b0100000, shamt);
    IType { opcode: Opcode::OpImm, funct3: 0b101, rd, rs, imm12 }.encode()
}

/// Encodes `add rd, rs1, rs2`: add.
pub fn add(rd: Register, rs1: Register, rs2: Register) -> (word: u32)
    ensures
        word == (RType {
            opcode: Opcode::Op,
            funct3: 0b000,
            funct7: 0b0000000,
            rd,
            rs1,
            rs2,
        }).word(),
{
    RType { opcode: Opcode::Op, funct3: 0b000, funct7: 0b0000000, rd, rs1, rs2 }.encode()
}

/// Encodes `sub rd, rs1, rs2`: subtract.
pub fn sub(rd: Register, rs1: Register, rs2: Register) -> (word: u32)
    ensures
        word == (RType {
            opcode: Opcode::Op,
            funct3: 0b000,
            funct7: 0b0100000,
            rd,
            rs1,
            rs2,
        }).word(),
{
    RType { opcode: Opcode::Op, funct3: 0b000, funct7: 0b0100000, rd, rs1, rs2 }.encode()
}

/// Encodes `sll rd, rs1, rs2`: shift left.
pub fn sll(rd: Register, rs1: Register, rs2: Register) -> (word: u32)
    ensures
        word == (RType {
            opcode: Opcode::Op,
            funct3: 0b001,
            funct7: 0b0000000,
            rd,
            rs1,
            rs2,
        }).word(),
{
    RType { opcode: Opcode::Op, funct3: 0b001, funct7: 0b0000000, rd, rs1, rs2 }.encode()
}

/// Encodes `slt rd, rs1, rs2`: set if less, signed.
pub fn slt(rd: Register, rs1: Register, rs2: Register) -> (word: u32)
    ensures
        word == (RType {
            opcode: Opcode::Op,
            funct3: 0b010,
            funct7: 0b0000000,
            rd,
            rs1,
            rs2,
        }).word(),
{
    RType { opcode: Opcode::Op, funct3: 0b010, funct7: 0b0000000, rd, rs1, rs2 }.encode()
}

/// Encodes `sltu rd, rs1, rs2`: set if less, unsigned.
pub fn sltu(rd: Register, rs1: Register, rs2: Register) -> (word: u32)
    ensures
        word == (RType {
            opcode: Opcode::Op,
            funct3: 0b011,
            funct7: 0b0000000,
            rd,
            rs1,
            rs2,
        }).word(),
{
    RType { opcode: Opcode::Op, funct3: 0b011, funct7: 0b0000000, rd, rs1, rs2 }.encode()
}

/// Encodes `xor rd, rs1, rs2`: exclusive or.
pub fn xor(rd: Register, rs1: Register, rs2: Register) -> (word: u32)
    ensures
        word == (RType {
            opcode: Opcode::Op,
            funct3: 0b100,
            funct7: 0b0000000,
            rd,
            rs1,
            rs2,
        }).word(),
{
    RType { opcode: Opcode::Op, funct3: 0b100, funct7: 0b0000000, rd, rs1, rs2 }.encode()
}

/// Encodes `srl rd, rs1, rs2`: shift right, filling with zeros.
pub fn srl(rd: Register, rs1: Register, rs2: Register) -> (word: u32)
    ensures
        word == (RType {
            opcode: Opcode::Op,
            funct3: 0b101,
            funct7: 0b0000000,
            rd,
            rs1,
            rs2,
        }).word(),
{
    RType { opcode: Opcode::Op, funct3: 0b101, funct7: 0b0000000, rd, rs1, rs2 }.encode()
}

/// Encodes `sra rd, rs1, rs2`: shift right, filling with the sign.
pub fn sra(rd: Register, rs1: Register, rs2: Register) -> (word: u32)
    ensures
        word == (RType {
            opcode: Opcode::Op,
            funct3: 0b101,
            funct7: 0b0100000,
            rd,
            rs1,
            rs2,
        }).word(),
{
    RType { opcode: Opcode::Op, funct3: 0b101, funct7: 0b0100000, rd, rs1, rs2 }.encode()
}

/// Encodes `or rd, rs1, rs2`: or.
pub fn or(rd: Register, rs1: Register, rs2: Register) -> (word: u32)
    ensures
        word == (RType {
            opcode: Opcode::Op,
            funct3: 0b110,
            funct7: 0b0000000,
            rd,
            rs1,
            rs2,
        }).word(),
{
    RType { opcode: Opcode::Op, funct3: 0b110, funct7: 0b0000000, rd, rs1, rs2 }.encode()
}

/// Encodes `and rd, rs1, rs2`: and.
pub fn and(rd: Register, rs1: Register, rs2: Register) -> (word: u32)
    ensures
        word == (RType {
            opcode: Opcode::Op,
            funct3: 0b111,
            funct7: 0b0000000,
            rd,
            rs1,
            rs2,
        }).word(),
{
    RType { opcode: Opcode::Op, funct3: 0b111, funct7: 0b0000000, rd, rs1, rs2 }.encode()
}

/// Encodes `ecall`: raise a system call.
pub fn ecall() -> (word: u32)
    ensures
        word == (IType {
            opcode: Opcode::System,
            funct3: 0b000,
            rd: Register::Zero,
            rs: Register::Zero,
            imm12: 0,
        }).word(),
{
    proof {
        lemma2_to64();
    }
    IType { opcode: Opcode::System, imm12: 0, ..IType::null() }.encode()
}

/// Encodes `ebreak`: break into the debugger.
pub fn ebreak() -> (word: u32)
    ensures
        word == (IType {
            opcode: Opcode::System,
            funct3: 0b000,
            rd: Register::Zero,
            rs: Register::Zero,
            imm12: 1,
        }).word(),
{
    proof {
        lemma2_to64();
    }
    IType { opcode: Opcode::System, imm12: 1, ..IType::null() }.encode()
}

/// Encodes `nop`: do nothing, written as `addi zero, zero, 0`.
pub fn nop() -> (word: u32)
    ensures
        word == (IType {
            opcode: Opcode::OpImm,
            funct3: 0b000,
            rd: Register::Zero,
            rs: Register::Zero,
            imm12: 0,
        }).word(),
{
    proof {
        lemma2_to64();
    }
    addi(Register::Zero, Register::Zero, 0)
}

/// Encodes `mv rd, rs`: copy a register, written as `addi rd, rs, 0`.
pub fn mv(rd: Register, rs: Register) -> (word: u32)
    ensures
        word == (IType { opcode: Opcode::OpImm, funct3: 0b000, rd: rd, rs: rs, imm12: 0 }).word(),
{
    proof {
        lemma2_to64();
    }
    addi(rd, rs, 0)
}

/// Encodes `not rd, rs`: complement, written as `xori rd, rs, -1`.
pub fn not(rd: Register, rs: Register) -> (word: u32)
    ensures
        word == (IType {
            opcode: Opcode::OpImm,
            funct3: 0b100,
            rd: rd,
            rs: rs,
            imm12: -1i16,
        }).word(),
{
    proof {
        lemma2_to64();
    }
    xori(rd, rs, -1)
}

/// Encodes `neg rd, rs`: negate, written as `sub rd, zero, rs`.
pub fn neg(rd: Register, rs: Register) -> (word: u32)
    ensures
        word == (RType {
            opcode: Opcode::Op,
            funct3: 0b000,
            funct7: 0b0100000,
            rd: rd,
            rs1: Register::Zero,
            rs2: rs,
        }).word(),
{
    self::sub(rd, Register::Zero, rs)
}

/// Encodes `zext.b rd, rs`: keep the low byte, written as `andi rd, rs, 255`.
pub fn zext_b(rd: Register, rs: Register) -> (word: u32)
    ensures
        word == (IType {
            opcode: Opcode::OpImm,
            funct3: 0b111,
            rd: rd,
            rs: rs,
            imm12: 0xff,
        }).word(),
{
    proof {
        lemma2_to64();
    }
    andi(rd, rs, 0xff)
}

/// Encodes `seqz rd, rs`: set if zero, written as `sltiu rd, rs, 1`.
pub fn seqz(rd: Register, rs: Register) -> (word: u32)
    ensures
        word == (IType { opcode: Opcode::OpImm, funct3: 0b011, rd: rd, rs: rs, imm12: 1 }).word(),
{
    proof {
        lemma2_to64();
    }
    sltiu(rd, rs, 1)
}

/// Encodes `snez rd, rs`: set if not zero, written as `sltu rd, zero, rs`.
pub fn snez(rd: Register, rs: Register) -> (word: u32)
    ensures
        word == (RType {
            opcode: Opcode::Op,
            funct3: 0b011,
            funct7: 0b0000000,
            rd: rd,
            rs1: Register::Zero,
            rs2: rs,
        }).word(),
{
    sltu(rd, Register::Zero, rs)
}

/// Encodes `sltz rd, rs`: set if negative, written as `slt rd, rs, zero`.
pub fn sltz(rd: Register, rs: Register) -> (word: u32)
    ensures
        word == (RType {
            opcode: Opcode::Op,
            funct3: 0b010,
            funct7: 0b0000000,
            rd: rd,
            rs1: rs,
            rs2: Register::Zero,
        }).word(),
{
    slt(rd, rs, Register::Zero)
}

/// Encodes `sgtz rd, rs`: set if positive, written as `slt rd, zero, rs`.
pub fn sgtz(rd: Register, rs: Register) -> (word: u32)
    ensures
        word == (RType {
            opcode: Opcode::Op,
            funct3: 0b010,
            funct7: 0b0000000,
            rd: rd,
            rs1: Register::Zero,
            rs2: rs,
        }).word(),
{
    slt(rd, Register::Zero, rs)
}

/// Encodes `beqz rs, offset`: branch if zero, written as `beq rs, zero, offset`.
pub fn beqz(rs: Register, offset: i16) -> (word: u32)
    requires
        fits_signed(13, offset as int),
    ensures
        word == (BType {
            opcode: Opcode::Branch,
            funct3: 0b000,
            rs1: rs,
            rs2: Register::Zero,
            offset,
        }).word(),
{
    beq(rs, Register::Zero, offset)
}

/// Encodes `bnez rs, offset`: branch if not zero, written as `bne rs, zero, offset`.
pub fn bnez(rs: Register, offset: i16) -> (word: u32)
    requires
        fits_signed(13, offset as int),
    ensures
        word == (BType {
            opcode: Opcode::Branch,
            funct3: 0b001,
            rs1: rs,
            rs2: Register::Zero,
            offset,
        }).word(),
{
    bne(rs, Register::Zero, offset)
}

/// Encodes `blez rs, offset`: branch if not positive, written as `bge zero, rs, offset`.
pub fn blez(rs: Register, offset: i16) -> (word: u32)
    requires
        fits_signed(13, offset as int),
    ensures
        word == (BType {
            opcode: Opcode::Branch,
            funct3: 0b101,
            rs1: Register::Zero,
            rs2: rs,
            offset,
        }).word(),
{
    bge(Register::Zero, rs, offset)
}

/// Encodes `bgez rs, offset`: branch if not negative, written as `bge rs, zero, offset`.
pub fn bgez(rs: Register, offset: i16) -> (word: u32)
    requires
        fits_signed(13, offset as int),
    ensures
        word == (BType {
            opcode: Opcode::Branch,
            funct3: 0b101,
            rs1: rs,
            rs2: Register::Zero,
            offset,
        }).word(),
{
    bge(rs, Register::Zero, offset)
}

/// Encodes `bltz rs, offset`: branch if negative, written as
/// `blt rs, zero, offset`.
pub fn bltz(rs: Register, offset: i16) -> (word: u32)
    requires
        fits_signed(13, offset as int),
    ensures
        word == (BType {
            opcode: Opcode::Branch,
            funct3: 0b100,
            rs1: rs,
            rs2: Register::Zero,
            offset,
        }).word(),
{
    blt(rs, Register::Zero, offset)
}

/// Encodes `bgtz rs, offset`: branch if positive, written as
/// `blt zero, rs, offset`.
pub fn bgtz(rs: Register, offset: i16) -> (word: u32)
    requires
        fits_signed(13, offset as int),
    ensures
        word == (BType {
            opcode: Opcode::Branch,
            funct3: 0b100,
            rs1: Register::Zero,
            rs2: rs,
            offset,
        }).word(),
{
    blt(Register::Zero, rs, offset)
}

/// Encodes `bgt rs1, rs2, offset`: branch if greater, signed, written as `blt rs2, rs1, offset`.
pub fn bgt(rs1: Register, rs2: Register, offset: i16) -> (word: u32)
    requires
        fits_signed(13, offset as int),
    ensures
        word == (BType {
            opcode: Opcode::Branch,
            funct3: 0b100,
            rs1: rs2,
            rs2: rs1,
            offset,
        }).word(),
{
    blt(rs2, rs1, offset)
}

/// Encodes `ble rs1, rs2, offset`: branch if less or equal, signed, written as `bge rs2, rs1, offset`.
pub fn ble(rs1: Register, rs2: Register, offset: i16) -> (word: u32)
    requires
        fits_signed(13, offset as int),
    ensures
        word == (BType {
            opcode: Opcode::Branch,
            funct3: 0b101,
            rs1: rs2,
            rs2: rs1,
            offset,
        }).word(),
{
    bge(rs2, rs1, offset)
}

/// Encodes `bgtu rs1, rs2, offset`: branch if greater, unsigned, written as `bltu rs2, rs1, offset`.
pub fn bgtu(rs1: Register, rs2: Register, offset: i16) -> (word: u32)
    requires
        fits_signed(13, offset as int),
    ensures
        word == (BType {
            opcode: Opcode::Branch,
            funct3: 0b110,
            rs1: rs2,
            rs2: rs1,
            offset,
        }).word(),
{
    bltu(rs2, rs1, offset)
}

/// Encodes `bleu rs1, rs2, offset`: branch if less or equal, unsigned, written as `bgeu rs2, rs1, offset`.
pub fn bleu(rs1: Register, rs2: Register, offset: i16) -> (word: u32)
    requires
        fits_signed(13, offset as int),
    ensures
        word == (BType {
            opcode: Opcode::Branch,
            funct3: 0b111,
            rs1: rs2,
            rs2: rs1,
            offset,
        }).word(),
{
    bgeu(rs2, rs1, offset)
}

/// Encodes `j offset`: jump by the signed 21-bit offset, written as
/// `jal zero, offset`.
pub fn j(offset: i32) -> (word: u32)
    requires
        fits_signed(21, offset as int),
    ensures
        word == jtype_word(JAL, 0, offset),
{
    jal(Register::Zero, offset)
}

/// Encodes `jr rs`: jump to the register, written as `jalr zero, 0(rs)`.
pub fn jr(rs: Register) -> (word: u32)
    ensures
        word == (IType {
            opcode: Opcode::Jalr,
            funct3: 0b000,
            rd: Register::Zero,
            rs: rs,
            imm12: 0,
        }).word(),
{
    proof {
        lemma2_to64();
    }
    jalr(Register::Zero, rs, 0)
}

/// Encodes `ret`: return, written as `jalr zero, 0(ra)`.
pub fn ret() -> (word: u32)
    ensures
        word == (IType {
            opcode: Opcode::Jalr,
            funct3: 0b000,
            rd: Register::Zero,
            rs: Register::Ra,
            imm12: 0,
        }).word(),
{
    proof {
        lemma2_to64();
    }
    jalr(Register::Zero, Register::Ra, 0)
}

} // verus!
