//! The bit-field composer, the range checks on immediates, and one encoder
//! for each instruction layout.

use vstd::prelude::*;
use vstd::arithmetic::power2::{
    lemma2_to64, lemma2_to64_rest, lemma_pow2_pos, lemma_pow2_strictly_increases, pow2,
};
use vstd::bits::lemma_u64_shl_is_mul;
use crate::types::{CRegister, Register};

verus! {

/// Whether `value` can be written as an `n`-bit two's complement number:
/// `-2^(n-1) <= value < 2^(n-1)`.
pub open spec fn fits_signed(n: nat, value: int) -> bool
    recommends
        n >= 1,
{
    -pow2((n - 1) as nat) <= value < pow2((n - 1) as nat)
}

/// Tells whether `value` lies in the range of an `n`-bit signed field.
pub fn is_signed_nbit_integer(n: u8, value: i64) -> (r: bool)
    requires
        1 <= n <= 64,
    ensures
        r == fits_signed(n as nat, value as int),
{
    proof {
        lemma2_to64_rest();
    }
    if n == 64 {
        return true;
    }
    let shift: u64 = (n - 1) as u64;
    proof {
        if shift < 62 {
            lemma_pow2_strictly_increases(shift as nat, 62);
        }
        lemma_pow2_pos(shift as nat);
        lemma_u64_shl_is_mul(1, shift);
    }
    let bound: i64 = (1u64 << shift) as i64;
    -bound <= value && value < bound
}

/// The least and the greatest value of an `n`-bit signed field are in its
/// range; their neighbours on the outside are not.
pub proof fn lemma_signed_range_boundary(n: nat)
    requires
        n >= 1,
    ensures
        fits_signed(n, pow2((n - 1) as nat) - 1),
        fits_signed(n, -pow2((n - 1) as nat)),
        !fits_signed(n, pow2((n - 1) as nat) as int),
        !fits_signed(n, -pow2((n - 1) as nat) - 1),
{
    lemma_pow2_pos((n - 1) as nat);
}

/// The accumulator after a field of `n` bits has been appended below
/// what it held: the old content moves up by `n` bits, bits that pass the
/// top of the word are lost, and `field` fills the room.
pub open spec fn append_field(acc: u32, field: u32, n: u8) -> u32 {
    (acc << n) | field
}

/// A 32-bit accumulator that instruction words are composed in, field by
/// field, the most significant field first.
pub struct BitBuffer {
    pub bits: u32,
}

impl BitBuffer {
    /// An accumulator with no bit set.
    pub fn new() -> (r: BitBuffer)
        ensures
            r.bits == 0,
    {
        BitBuffer { bits: 0 }
    }

    /// Appends a field of `N` bits below the bits composed so far.
    pub fn push<const N: u8>(&mut self, bits: Bits<N>)
        requires
            N < 32,
        ensures
            final(self).bits == append_field(old(self).bits, bits@, N),
    {
        self.bits = (self.bits << N) | bits.0;
    }
}

/// A value cut down to its `N` low bits.
pub struct Bits<const N: u8>(u32);

impl<const N: u8> View for Bits<N> {
    type V = u32;

    closed spec fn view(&self) -> u32 {
        self.0
    }
}

/// What is left of a value under a mask is no greater than the mask.
pub proof fn lemma_low_bits_bound(x: u32, mask: u32)
    by (bit_vector)
    ensures
        x & mask <= mask,
{
}

/// The lowest bit of `x`.
pub fn i1(x: u32) -> (r: Bits<1>)
    ensures
        r@ == x & 0x1,
        r@ <= 0x1,
{
    proof {
        lemma_low_bits_bound(x, 0x1);
    }
    Bits(x & 0x1)
}

/// The 2 low bits of `x`.
pub fn i2(x: u32) -> (r: Bits<2>)
    ensures
        r@ == x & 0x3,
        r@ <= 0x3,
{
    proof {
        lemma_low_bits_bound(x, 0x3);
    }
    Bits(x & 0x3)
}

/// The 3 low bits of `x`.
pub fn i3(x: u32) -> (r: Bits<3>)
    ensures
        r@ == x & 0x7,
        r@ <= 0x7,
{
    proof {
        lemma_low_bits_bound(x, 0x7);
    }
    Bits(x & 0x7)
}

/// The 4 low bits of `x`.
pub fn i4(x: u32) -> (r: Bits<4>)
    ensures
        r@ == x & 0xf,
        r@ <= 0xf,
{
    proof {
        lemma_low_bits_bound(x, 0xf);
    }
    Bits(x & 0xf)
}

/// The 5 low bits of `x`.
pub fn i5(x: u32) -> (r: Bits<5>)
    ensures
        r@ == x & 0x1f,
        r@ <= 0x1f,
{
    proof {
        lemma_low_bits_bound(x, 0x1f);
    }
    Bits(x & 0x1f)
}

/// The 6 low bits of `x`.
pub fn i6(x: u32) -> (r: Bits<6>)
    ensures
        r@ == x & 0x3f,
        r@ <= 0x3f,
{
    proof {
        lemma_low_bits_bound(x, 0x3f);
    }
    Bits(x & 0x3f)
}

/// The 7 low bits of `x`.
pub fn i7(x: u32) -> (r: Bits<7>)
    ensures
        r@ == x & 0x7f,
        r@ <= 0x7f,
{
    proof {
        lemma_low_bits_bound(x, 0x7f);
    }
    Bits(x & 0x7f)
}

/// The 8 low bits of `x`.
pub fn i8(x: u32) -> (r: Bits<8>)
    ensures
        r@ == x & 0xff,
        r@ <= 0xff,
{
    proof {
        lemma_low_bits_bound(x, 0xff);
    }
    Bits(x & 0xff)
}

/// The 10 low bits of `x`.
pub fn i10(x: u32) -> (r: Bits<10>)
    ensures
        r@ == x & 0x3ff,
        r@ <= 0x3ff,
{
    proof {
        lemma_low_bits_bound(x, 0x3ff);
    }
    Bits(x & 0x3ff)
}

/// The 12 low bits of `x`.
pub fn i12(x: u32) -> (r: Bits<12>)
    ensures
        r@ == x & 0xfff,
        r@ <= 0xfff,
{
    proof {
        lemma_low_bits_bound(x, 0xfff);
    }
    Bits(x & 0xfff)
}

/// The 20 low bits of `x`.
pub fn i20(x: u32) -> (r: Bits<20>)
    ensures
        r@ == x & 0xfffff,
        r@ <= 0xfffff,
{
    proof {
        lemma_low_bits_bound(x, 0xfffff);
    }
    Bits(x & 0xfffff)
}

/// The signed 12-bit half of a displacement: its 12 low bits, read as a
/// two's complement number.
pub open spec fn lower12(offset: int) -> int {
    (offset + 2048) % 4096 - 2048
}

/// The upper half of a displacement: what is left to add, in units of
/// 4096, once the signed lower half is taken off.
pub open spec fn upper20(offset: int) -> int {
    (offset + 2048) / 4096
}

/// Splits a 32-bit displacement into the immediate of an upper-immediate
/// instruction and the signed 12-bit immediate of the instruction that
/// follows it. The pair is the only one with `upper * 4096 + lower == imm`
/// and `lower` in the signed 12-bit range.
pub fn to_i20_i12_imm_pair(imm: i32) -> (pair: (i32, i16))
    ensures
        pair.0 * 4096 + pair.1 == imm,
        -2048 <= pair.1 < 2048,
        pair.0 == upper20(imm as int),
        pair.1 == lower12(imm as int),
{
    let high: i32 = imm >> 12;
    let carry: i32 = (imm >> 11) & 1;
    let low: i16 = ((imm as i16) << 4) >> 4;
    proof {
        assert(-0x80000 <= high < 0x80000 && 0 <= carry <= 1 && -2048 <= low < 2048
            && (high + carry) * 4096 + low == imm
            && low == (imm + 2048) % 4096 - 2048
            && high + carry == (imm + 2048) / 4096) by (bit_vector)
            requires
                high == imm >> 12,
                carry == (imm >> 11) & 1,
                low == ((imm as i16) << 4) >> 4,
        ;
    }
    (high + carry, low)
}

/// The major opcode of `auipc`.
pub const AUIPC: u32 = 0b0010111;

/// The major opcode of `lui`.
pub const LUI: u32 = 0b0110111;

/// The major opcode of `jal`.
pub const JAL: u32 = 0b1101111;

/// The major opcodes of 32-bit instructions; `Null` stands for an opcode
/// field left empty.
#[derive(Clone, Copy, PartialEq, Eq, Structural, Debug)]
pub enum Opcode {
    Null,
    Load,
    LoadFp,
    Custom0,
    MiscMem,
    OpImm,
    Auipc,
    OpImm32,
    Store,
    StoreFp,
    Custom1,
    Amo,
    Op,
    Lui,
    Op32,
    Madd,
    Msub,
    Nmsub,
    Nmadd,
    OpFp,
    Custom2,
    Branch,
    Jalr,
    Jal,
    System,
    Custom3,
}

impl Opcode {
    /// The 7 bits that the opcode field holds.
    pub open spec fn spec_code(self) -> u32 {
        match self {
            Opcode::Null => 0b0000000,
            Opcode::Load => 0b0000011,
            Opcode::LoadFp => 0b0000111,
            Opcode::Custom0 => 0b0001011,
            Opcode::MiscMem => 0b0001111,
            Opcode::OpImm => 0b0010011,
            Opcode::Auipc => 0b0010111,
            Opcode::OpImm32 => 0b0011011,
            Opcode::Store => 0b0100011,
            Opcode::StoreFp => 0b0100111,
            Opcode::Custom1 => 0b0101011,
            Opcode::Amo => 0b0101111,
            Opcode::Op => 0b0110011,
            Opcode::Lui => 0b0110111,
            Opcode::Op32 => 0b0111011,
            Opcode::Madd => 0b1000011,
            Opcode::Msub => 0b1000111,
            Opcode::Nmsub => 0b1001011,
            Opcode::Nmadd => 0b1001111,
            Opcode::OpFp => 0b1010011,
            Opcode::Custom2 => 0b1011011,
            Opcode::Branch => 0b1100011,
            Opcode::Jalr => 0b1100111,
            Opcode::Jal => 0b1101111,
            Opcode::System => 0b1110011,
            Opcode::Custom3 => 0b1111011,
        }
    }

    /// The 7 bits that the opcode field holds.
    #[verifier::when_used_as_spec(spec_code)]
    pub fn code(self) -> (r: u32)
        ensures
            r == self.spec_code(),
            r < 128,
    {
        match self {
            Opcode::Null => 0b0000000,
            Opcode::Load => 0b0000011,
            Opcode::LoadFp => 0b0000111,
            Opcode::Custom0 => 0b0001011,
            Opcode::MiscMem => 0b0001111,
            Opcode::OpImm => 0b0010011,
            Opcode::Auipc => 0b0010111,
            Opcode::OpImm32 => 0b0011011,
            Opcode::Store => 0b0100011,
            Opcode::StoreFp => 0b0100111,
            Opcode::Custom1 => 0b0101011,
            Opcode::Amo => 0b0101111,
            Opcode::Op => 0b0110011,
            Opcode::Lui => 0b0110111,
            Opcode::Op32 => 0b0111011,
            Opcode::Madd => 0b1000011,
            Opcode::Msub => 0b1000111,
            Opcode::Nmsub => 0b1001011,
            Opcode::Nmadd => 0b1001111,
            Opcode::OpFp => 0b1010011,
            Opcode::Custom2 => 0b1011011,
            Opcode::Branch => 0b1100011,
            Opcode::Jalr => 0b1100111,
            Opcode::Jal => 0b1101111,
            Opcode::System => 0b1110011,
            Opcode::Custom3 => 0b1111011,
        }
    }
}

/// Bits `lo` to `lo + width - 1` of `value`, placed at bits `pos` to
/// `pos + width - 1` of a word that is zero elsewhere.
pub open spec fn field(value: u32, lo: u32, width: u32, pos: u32) -> u32 {
    ((value >> lo) & (((1u32 << width) - 1) as u32)) << pos
}

/// The two's complement number that the `width` low bits of `raw` spell,
/// where `raw` has no bit set above them.
pub open spec fn sign_extended(raw: u32, width: u32) -> int {
    if raw >= (1u32 << ((width - 1) as u32)) {
        raw - (1u32 << width)
    } else {
        raw as int
    }
}

/// The 32-bit word with these fields, from the most significant bit down:
/// `funct7 | rs2 | rs1 | funct3 | rd | opcode`.
/// A value wider than its field is cut down to the field's low bits.
pub open spec fn rtype_word(
    opcode: u32,
    funct3: u32,
    funct7: u32,
    rd: u32,
    rs1: u32,
    rs2: u32,
) -> u32 {
    field(funct7, 0, 7, 25)
        | field(rs2, 0, 5, 20)
        | field(rs1, 0, 5, 15)
        | field(funct3, 0, 3, 12)
        | field(rd, 0, 5, 7)
        | field(opcode, 0, 7, 0)
}

/// Appending the fields of a register-register word, the most significant first, gives
/// the word laid out as `rtype_word` says. Each field can be read back from
/// its place in the word.
pub proof fn lemma_rtype_layout(
    opcode: u32,
    funct3: u32,
    funct7: u32,
    rd: u32,
    rs1: u32,
    rs2: u32,
)
    by (bit_vector)
    ensures
        append_field(
            append_field(
                append_field(
                    append_field(
                        append_field(
                            append_field(0u32, funct7 & 0x7f, 7),
                            rs2 & 0x1f,
                            5,
                        ),
                        rs1 & 0x1f,
                        5,
                    ),
                    funct3 & 0x7,
                    3,
                ),
                rd & 0x1f,
                5,
            ),
            opcode & 0x7f,
            7,
        ) == rtype_word(opcode, funct3, funct7, rd, rs1, rs2),
        field(rtype_word(opcode, funct3, funct7, rd, rs1, rs2), 25, 7, 0) == funct7 & 0x7f,
        field(rtype_word(opcode, funct3, funct7, rd, rs1, rs2), 20, 5, 0) == rs2 & 0x1f,
        field(rtype_word(opcode, funct3, funct7, rd, rs1, rs2), 15, 5, 0) == rs1 & 0x1f,
        field(rtype_word(opcode, funct3, funct7, rd, rs1, rs2), 12, 3, 0) == funct3 & 0x7,
        field(rtype_word(opcode, funct3, funct7, rd, rs1, rs2), 7, 5, 0) == rd & 0x1f,
        field(rtype_word(opcode, funct3, funct7, rd, rs1, rs2), 0, 7, 0) == opcode & 0x7f,
{
}

/// A register-register operation: three registers, two function codes and the opcode.
pub struct RType {
    pub opcode: Opcode,
    pub funct3: u8,
    pub funct7: u8,
    pub rd: Register,
    pub rs1: Register,
    pub rs2: Register,
}

impl RType {
    /// The word that these fields encode to.
    pub open spec fn word(self) -> u32 {
        rtype_word(
            self.opcode.spec_code(),
            self.funct3 as u32,
            self.funct7 as u32,
            self.rd.spec_index(),
            self.rs1.spec_index(),
            self.rs2.spec_index(),
        )
    }

    /// Encodes the instruction.
    pub fn encode(self) -> (word: u32)
        ensures
            word == self.word(),
    {
        let opcode: u32 = self.opcode.code();
        let funct3: u32 = self.funct3 as u32;
        let funct7: u32 = self.funct7 as u32;
        let rd: u32 = self.rd.index();
        let rs1: u32 = self.rs1.index();
        let rs2: u32 = self.rs2.index();
        let mut bits = BitBuffer::new();
        bits.push(i7(funct7));
        bits.push(i5(rs2));
        bits.push(i5(rs1));
        bits.push(i3(funct3));
        bits.push(i5(rd));
        bits.push(i7(opcode));
        proof {
            lemma_rtype_layout(opcode, funct3, funct7, rd, rs1, rs2);
        }
        bits.bits
    }
}

/// The 32-bit word with these fields, from the most significant bit down:
/// `imm[11:0] | rs | funct3 | rd | opcode`.
/// A value wider than its field is cut down to the field's low bits.
pub open spec fn itype_word(opcode: u32, funct3: u32, rd: u32, rs: u32, imm12: i16) -> u32 {
    field(imm12 as u32, 0, 12, 20)
        | field(rs, 0, 5, 15)
        | field(funct3, 0, 3, 12)
        | field(rd, 0, 5, 7)
        | field(opcode, 0, 7, 0)
}

/// The immediate that an immediate-format word holds, read from its bits.
pub open spec fn itype_immediate(word: u32) -> int {
    sign_extended(field(word, 20, 12, 0), 12)
}

/// Appending the fields of an immediate-format word, the most significant first, gives
/// the word laid out as `itype_word` says. Each field can be read back from
/// its place in the word, and so can the immediate, where it is
/// within range.
pub proof fn lemma_itype_layout(opcode: u32, funct3: u32, rd: u32, rs: u32, imm12: i16)
    by (bit_vector)
    ensures
        append_field(
            append_field(
                append_field(
                    append_field(
                        append_field(0u32, (imm12 as u32) & 0xfff, 12),
                        rs & 0x1f,
                        5,
                    ),
                    funct3 & 0x7,
                    3,
                ),
                rd & 0x1f,
                5,
            ),
            opcode & 0x7f,
            7,
        ) == itype_word(opcode, funct3, rd, rs, imm12),
        field(itype_word(opcode, funct3, rd, rs, imm12), 15, 5, 0) == rs & 0x1f,
        field(itype_word(opcode, funct3, rd, rs, imm12), 12, 3, 0) == funct3 & 0x7,
        field(itype_word(opcode, funct3, rd, rs, imm12), 7, 5, 0) == rd & 0x1f,
        field(itype_word(opcode, funct3, rd, rs, imm12), 0, 7, 0) == opcode & 0x7f,
        -2048 <= imm12 < 2048
            ==> itype_immediate(itype_word(opcode, funct3, rd, rs, imm12)) == imm12,
{
}

/// An operation with a register, a signed 12-bit immediate and a destination.
pub struct IType {
    pub opcode: Opcode,
    pub funct3: u8,
    pub rd: Register,
    pub rs: Register,
    pub imm12: i16,
}

impl IType {
    /// The word that these fields encode to.
    pub open spec fn word(self) -> u32 {
        itype_word(
            self.opcode.spec_code(),
            self.funct3 as u32,
            self.rd.spec_index(),
            self.rs.spec_index(),
            self.imm12,
        )
    }

    /// The instruction with every field empty.
    pub fn null() -> (r: IType)
        ensures
            r == (IType {
                opcode: Opcode::Null,
                funct3: 0,
                rd: Register::Zero,
                rs: Register::Zero,
                imm12: 0,
            }),
    {
        IType {
            opcode: Opcode::Null,
            funct3: 0,
            rd: Register::Zero,
            rs: Register::Zero,
            imm12: 0,
        }
    }

    /// Encodes the instruction.
    pub fn encode(self) -> (word: u32)
        requires
            fits_signed(12, self.imm12 as int),
        ensures
            word == self.word(),
    {
        let opcode: u32 = self.opcode.code();
        let funct3: u32 = self.funct3 as u32;
        let rd: u32 = self.rd.index();
        let rs: u32 = self.rs.index();
        let imm12: i16 = self.imm12;
        let mut bits = BitBuffer::new();
        bits.push(i12(imm12 as u32));
        bits.push(i5(rs));
        bits.push(i3(funct3));
        bits.push(i5(rd));
        bits.push(i7(opcode));
        proof {
            lemma_itype_layout(opcode, funct3, rd, rs, imm12);
        }
        bits.bits
    }
}

/// The 32-bit word with these fields, from the most significant bit down:
/// `imm[11:5] | rs | base | funct3 | imm[4:0] | opcode`.
/// A value wider than its field is cut down to the field's low bits.
pub open spec fn stype_word(opcode: u32, funct3: u32, rs: u32, base: u32, imm12: i16) -> u32 {
    field(imm12 as u32, 5, 7, 25)
        | field(rs, 0, 5, 20)
        | field(base, 0, 5, 15)
        | field(funct3, 0, 3, 12)
        | field(imm12 as u32, 0, 5, 7)
        | field(opcode, 0, 7, 0)
}

/// The immediate that a store word holds, read from its bits.
pub open spec fn stype_immediate(word: u32) -> int {
    sign_extended(field(word, 25, 7, 5) | field(word, 7, 5, 0), 12)
}

/// Appending the fields of a store word, the most significant first, gives
/// the word laid out as `stype_word` says. Each field can be read back from
/// its place in the word, and so can the immediate, where it is
/// within range.
pub proof fn lemma_stype_layout(opcode: u32, funct3: u32, rs: u32, base: u32, imm12: i16)
    by (bit_vector)
    ensures
        append_field(
            append_field(
                append_field(
                    append_field(
                        append_field(
                            append_field(0u32, ((imm12 >> 5) as u32) & 0x7f, 7),
                            rs & 0x1f,
                            5,
                        ),
                        base & 0x1f,
                        5,
                    ),
                    funct3 & 0x7,
                    3,
                ),
                (imm12 as u32) & 0x1f,
                5,
            ),
            opcode & 0x7f,
            7,
        ) == stype_word(opcode, funct3, rs, base, imm12),
        field(stype_word(opcode, funct3, rs, base, imm12), 20, 5, 0) == rs & 0x1f,
        field(stype_word(opcode, funct3, rs, base, imm12), 15, 5, 0) == base & 0x1f,
        field(stype_word(opcode, funct3, rs, base, imm12), 12, 3, 0) == funct3 & 0x7,
        field(stype_word(opcode, funct3, rs, base, imm12), 0, 7, 0) == opcode & 0x7f,
        -2048 <= imm12 < 2048
            ==> stype_immediate(stype_word(opcode, funct3, rs, base, imm12)) == imm12,
{
}

/// A store: the stored register, the base register and a signed 12-bit offset.
pub struct SType {
    pub opcode: Opcode,
    pub funct3: u8,
    pub rs: Register,
    pub base: Register,
    pub imm12: i16,
}

impl SType {
    /// The word that these fields encode to.
    pub open spec fn word(self) -> u32 {
        stype_word(
            self.opcode.spec_code(),
            self.funct3 as u32,
            self.rs.spec_index(),
            self.base.spec_index(),
            self.imm12,
        )
    }

    /// Encodes the instruction.
    pub fn encode(self) -> (word: u32)
        requires
            fits_signed(12, self.imm12 as int),
        ensures
            word == self.word(),
    {
        let opcode: u32 = self.opcode.code();
        let funct3: u32 = self.funct3 as u32;
        let rs: u32 = self.rs.index();
        let base: u32 = self.base.index();
        let imm12: i16 = self.imm12;
        let mut bits = BitBuffer::new();
        bits.push(i7((imm12 >> 5) as u32));
        bits.push(i5(rs));
        bits.push(i5(base));
        bits.push(i3(funct3));
        bits.push(i5(imm12 as u32));
        bits.push(i7(opcode));
        proof {
            lemma_stype_layout(opcode, funct3, rs, base, imm12);
        }
        bits.bits
    }
}

/// The 32-bit word with these fields, from the most significant bit down:
/// `offset[12] | offset[10:5] | rs2 | rs1 | funct3 | offset[4:1] | offset[11] | opcode`.
/// A value wider than its field is cut down to the field's low bits.
pub open spec fn btype_word(opcode: u32, funct3: u32, rs1: u32, rs2: u32, offset: i16) -> u32 {
    field(offset as u32, 12, 1, 31)
        | field(offset as u32, 5, 6, 25)
        | field(rs2, 0, 5, 20)
        | field(rs1, 0, 5, 15)
        | field(funct3, 0, 3, 12)
        | field(offset as u32, 1, 4, 8)
        | field(offset as u32, 11, 1, 7)
        | field(opcode, 0, 7, 0)
}

/// The offset that a branch word holds, read from its bits.
pub open spec fn btype_offset(word: u32) -> int {
    sign_extended(
        field(word, 31, 1, 12)
            | field(word, 25, 6, 5)
            | field(word, 8, 4, 1)
            | field(word, 7, 1, 11),
        13,
    )
}

/// Appending the fields of a branch word, the most significant first, gives
/// the word laid out as `btype_word` says. Each field can be read back from
/// its place in the word, and so can the offset, where it is
/// within range and even.
pub proof fn lemma_btype_layout(opcode: u32, funct3: u32, rs1: u32, rs2: u32, offset: i16)
    by (bit_vector)
    ensures
        append_field(
            append_field(
                append_field(
                    append_field(
                        append_field(
                            append_field(
                                append_field(
                                    append_field(0u32, ((offset >> 12) as u32) & 0x1, 1),
                                    ((offset >> 5) as u32) & 0x3f,
                                    6,
                                ),
                                rs2 & 0x1f,
                                5,
                            ),
                            rs1 & 0x1f,
                            5,
                        ),
                        funct3 & 0x7,
                        3,
                    ),
                    ((offset >> 1) as u32) & 0xf,
                    4,
                ),
                ((offset >> 11) as u32) & 0x1,
                1,
            ),
            opcode & 0x7f,
            7,
        ) == btype_word(opcode, funct3, rs1, rs2, offset),
        field(btype_word(opcode, funct3, rs1, rs2, offset), 20, 5, 0) == rs2 & 0x1f,
        field(btype_word(opcode, funct3, rs1, rs2, offset), 15, 5, 0) == rs1 & 0x1f,
        field(btype_word(opcode, funct3, rs1, rs2, offset), 12, 3, 0) == funct3 & 0x7,
        field(btype_word(opcode, funct3, rs1, rs2, offset), 0, 7, 0) == opcode & 0x7f,
        -4096 <= offset < 4096 && offset % 2 == 0
            ==> btype_offset(btype_word(opcode, funct3, rs1, rs2, offset)) == offset,
{
}

/// A conditional branch: two registers and a signed 13-bit offset
/// whose lowest bit is not encoded.
pub struct BType {
    pub opcode: Opcode,
    pub funct3: u8,
    pub rs1: Register,
    pub rs2: Register,
    pub offset: i16,
}

impl BType {
    /// The word that these fields encode to.
    pub open spec fn word(self) -> u32 {
        btype_word(
            self.opcode.spec_code(),
            self.funct3 as u32,
            self.rs1.spec_index(),
            self.rs2.spec_index(),
            self.offset,
        )
    }

    /// The instruction with every field empty.
    pub fn null() -> (r: BType)
        ensures
            r == (BType {
                opcode: Opcode::Null,
                funct3: 0,
                rs1: Register::Zero,
                rs2: Register::Zero,
                offset: 0,
            }),
    {
        BType {
            opcode: Opcode::Null,
            funct3: 0,
            rs1: Register::Zero,
            rs2: Register::Zero,
            offset: 0,
        }
    }

    /// Encodes the instruction.
    pub fn encode(self) -> (word: u32)
        requires
            fits_signed(13, self.offset as int),
        ensures
            word == self.word(),
    {
        let opcode: u32 = self.opcode.code();
        let funct3: u32 = self.funct3 as u32;
        let rs1: u32 = self.rs1.index();
        let rs2: u32 = self.rs2.index();
        let offset: i16 = self.offset;
        let mut bits = BitBuffer::new();
        bits.push(i1((offset >> 12) as u32));
        bits.push(i6((offset >> 5) as u32));
        bits.push(i5(rs2));
        bits.push(i5(rs1));
        bits.push(i3(funct3));
        bits.push(i4((offset >> 1) as u32));
        bits.push(i1((offset >> 11) as u32));
        bits.push(i7(opcode));
        proof {
            lemma_btype_layout(opcode, funct3, rs1, rs2, offset);
        }
        bits.bits
    }
}

/// The 16-bit word with these fields, from the most significant bit down:
/// `funct4 | rd | rs | op`.
/// A value wider than its field is cut down to the field's low bits.
pub open spec fn crtype_word(op: u32, rs: u32, rd: u32, funct4: u32) -> u32 {
    field(funct4, 0, 4, 12)
        | field(rd, 0, 5, 7)
        | field(rs, 0, 5, 2)
        | field(op, 0, 2, 0)
}

/// Appending the fields of a compressed register-register word, the most significant first, gives
/// the word laid out as `crtype_word` says. Each field can be read back from
/// its place in the word.
pub proof fn lemma_crtype_layout(op: u32, rs: u32, rd: u32, funct4: u32)
    by (bit_vector)
    ensures
        append_field(
            append_field(
                append_field(
                    append_field(0u32, funct4 & 0xf, 4),
                    rd & 0x1f,
                    5,
                ),
                rs & 0x1f,
                5,
            ),
            op & 0x3,
            2,
        ) == crtype_word(op, rs, rd, funct4),
        crtype_word(op, rs, rd, funct4) <= 0xffff,
        field(crtype_word(op, rs, rd, funct4), 12, 4, 0) == funct4 & 0xf,
        field(crtype_word(op, rs, rd, funct4), 7, 5, 0) == rd & 0x1f,
        field(crtype_word(op, rs, rd, funct4), 2, 5, 0) == rs & 0x1f,
        field(crtype_word(op, rs, rd, funct4), 0, 2, 0) == op & 0x3,
{
}

/// A compressed register-register operation.
pub struct CrType {
    pub op: u8,
    pub rs: Register,
    pub rd: Register,
    pub funct4: u8,
}

impl CrType {
    /// The word that these fields encode to.
    pub open spec fn word(self) -> u16 {
        crtype_word(
            self.op as u32,
            self.rs.spec_index(),
            self.rd.spec_index(),
            self.funct4 as u32,
        ) as u16
    }

    /// Encodes the instruction.
    pub fn encode(self) -> (word: u16)
        ensures
            word == self.word(),
    {
        let op: u32 = self.op as u32;
        let rs: u32 = self.rs.index();
        let rd: u32 = self.rd.index();
        let funct4: u32 = self.funct4 as u32;
        let mut bits = BitBuffer::new();
        bits.push(i4(funct4));
        bits.push(i5(rd));
        bits.push(i5(rs));
        bits.push(i2(op));
        proof {
            lemma_crtype_layout(op, rs, rd, funct4);
        }
        bits.bits as u16
    }
}

/// The 16-bit word with these fields, from the most significant bit down:
/// `funct3 | imm[5] | rd | imm[4:0] | op`.
/// A value wider than its field is cut down to the field's low bits.
pub open spec fn citype_word(op: u32, rd: u32, imm: i8, funct3: u32) -> u32 {
    field(funct3, 0, 3, 13)
        | field(imm as u32, 5, 1, 12)
        | field(rd, 0, 5, 7)
        | field(imm as u32, 0, 5, 2)
        | field(op, 0, 2, 0)
}

/// The immediate that a compressed word with an immediate holds, read
/// from its bits as a signed number.
pub open spec fn citype_immediate(word: u32) -> int {
    sign_extended(field(word, 12, 1, 5) | field(word, 2, 5, 0), 6)
}

/// The shift amount that a compressed word with an immediate holds: the
/// same bits, read as an unsigned number.
pub open spec fn citype_shift_amount(word: u32) -> u32 {
    field(word, 12, 1, 5) | field(word, 2, 5, 0)
}

/// Whether a value can stand in the 6-bit field of a compressed word with
/// an immediate: as a signed immediate it lies between -32 and 31, as a
/// shift amount between 0 and 63.
pub open spec fn fits_six_bits(imm: int) -> bool {
    -32 <= imm < 64
}

/// Appending the fields of a compressed word with an immediate, the most
/// significant first, gives the word laid out as `citype_word` says. Each
/// field can be read back from its place in the word, and so can the
/// immediate: as a signed number where it lies in the signed 6-bit range,
/// as a shift amount where it lies between 0 and 63.
pub proof fn lemma_citype_layout(op: u32, rd: u32, imm: i8, funct3: u32)
    by (bit_vector)
    ensures
        append_field(
            append_field(
                append_field(
                    append_field(
                        append_field(0u32, funct3 & 0x7, 3),
                        ((imm >> 5) as u32) & 0x1,
                        1,
                    ),
                    rd & 0x1f,
                    5,
                ),
                (imm as u32) & 0x1f,
                5,
            ),
            op & 0x3,
            2,
        ) == citype_word(op, rd, imm, funct3),
        citype_word(op, rd, imm, funct3) <= 0xffff,
        field(citype_word(op, rd, imm, funct3), 13, 3, 0) == funct3 & 0x7,
        field(citype_word(op, rd, imm, funct3), 7, 5, 0) == rd & 0x1f,
        field(citype_word(op, rd, imm, funct3), 0, 2, 0) == op & 0x3,
        -32 <= imm < 32 ==> citype_immediate(citype_word(op, rd, imm, funct3)) == imm,
        0 <= imm < 64 ==> citype_shift_amount(citype_word(op, rd, imm, funct3)) == imm,
{
}

/// A compressed operation with a register and a 6-bit field, which holds
/// either a signed immediate or a shift amount.
pub struct CiType {
    pub op: u8,
    pub rd: Register,
    pub imm: i8,
    pub funct3: u8,
}

impl CiType {
    /// The word that these fields encode to.
    pub open spec fn word(self) -> u16 {
        citype_word(self.op as u32, self.rd.spec_index(), self.imm, self.funct3 as u32) as u16
    }

    /// Encodes the instruction. The immediate must fit the 6-bit field.
    pub fn encode(self) -> (word: u16)
        requires
            fits_six_bits(self.imm as int),
        ensures
            word == self.word(),
    {
        let op: u32 = self.op as u32;
        let rd: u32 = self.rd.index();
        let imm: i8 = self.imm;
        let funct3: u32 = self.funct3 as u32;
        let mut bits = BitBuffer::new();
        bits.push(i3(funct3));
        bits.push(i1((imm >> 5) as u32));
        bits.push(i5(rd));
        bits.push(i5(imm as u32));
        bits.push(i2(op));
        proof {
            lemma_citype_layout(op, rd, imm, funct3);
        }
        bits.bits as u16
    }
}

/// The 16-bit word with these fields, from the most significant bit down:
/// `funct6 | rd | funct2 | rs | op`.
/// A value wider than its field is cut down to the field's low bits.
pub open spec fn catype_word(op: u32, rs: u32, funct2: u32, rd: u32, funct6: u32) -> u32 {
    field(funct6, 0, 6, 10)
        | field(rd, 0, 3, 7)
        | field(funct2, 0, 2, 5)
        | field(rs, 0, 3, 2)
        | field(op, 0, 2, 0)
}

/// Appending the fields of a compressed arithmetic word, the most significant first, gives
/// the word laid out as `catype_word` says. Each field can be read back from
/// its place in the word.
pub proof fn lemma_catype_layout(op: u32, rs: u32, funct2: u32, rd: u32, funct6: u32)
    by (bit_vector)
    ensures
        append_field(
            append_field(
                append_field(
                    append_field(
                        append_field(0u32, funct6 & 0x3f, 6),
                        rd & 0x7,
                        3,
                    ),
                    funct2 & 0x3,
                    2,
                ),
                rs & 0x7,
                3,
            ),
            op & 0x3,
            2,
        ) == catype_word(op, rs, funct2, rd, funct6),
        catype_word(op, rs, funct2, rd, funct6) <= 0xffff,
        field(catype_word(op, rs, funct2, rd, funct6), 10, 6, 0) == funct6 & 0x3f,
        field(catype_word(op, rs, funct2, rd, funct6), 7, 3, 0) == rd & 0x7,
        field(catype_word(op, rs, funct2, rd, funct6), 5, 2, 0) == funct2 & 0x3,
        field(catype_word(op, rs, funct2, rd, funct6), 2, 3, 0) == rs & 0x7,
        field(catype_word(op, rs, funct2, rd, funct6), 0, 2, 0) == op & 0x3,
{
}

/// A compressed arithmetic operation on two of the 8 compressed registers.
pub struct CaType {
    pub op: u8,
    pub rs: CRegister,
    pub funct2: u8,
    pub rd: CRegister,
    pub funct6: u8,
}

impl CaType {
    /// The word that these fields encode to.
    pub open spec fn word(self) -> u16 {
        catype_word(
            self.op as u32,
            self.rs.spec_c_index(),
            self.funct2 as u32,
            self.rd.spec_c_index(),
            self.funct6 as u32,
        ) as u16
    }

    /// Encodes the instruction.
    pub fn encode(self) -> (word: u16)
        ensures
            word == self.word(),
    {
        let op: u32 = self.op as u32;
        let rs: u32 = self.rs.c_index();
        let funct2: u32 = self.funct2 as u32;
        let rd: u32 = self.rd.c_index();
        let funct6: u32 = self.funct6 as u32;
        let mut bits = BitBuffer::new();
        bits.push(i6(funct6));
        bits.push(i3(rd));
        bits.push(i2(funct2));
        bits.push(i3(rs));
        bits.push(i2(op));
        proof {
            lemma_catype_layout(op, rs, funct2, rd, funct6);
        }
        bits.bits as u16
    }
}

/// The 16-bit word with these fields, from the most significant bit down:
/// `funct3 | offset[8] | offset[4:3] | rs | offset[7:6] | offset[2:1] | offset[5] | op`.
/// A value wider than its field is cut down to the field's low bits.
pub open spec fn cbtype_word(op: u32, rs: u32, offset: i16, funct3: u32) -> u32 {
    field(funct3, 0, 3, 13)
        | field(offset as u32, 8, 1, 12)
        | field(offset as u32, 3, 2, 10)
        | field(rs, 0, 3, 7)
        | field(offset as u32, 6, 2, 5)
        | field(offset as u32, 1, 2, 3)
        | field(offset as u32, 5, 1, 2)
        | field(op, 0, 2, 0)
}

/// The offset that a compressed branch word holds, read from its bits.
pub open spec fn cbtype_offset(word: u32) -> int {
    sign_extended(
        field(word, 12, 1, 8)
            | field(word, 10, 2, 3)
            | field(word, 5, 2, 6)
            | field(word, 3, 2, 1)
            | field(word, 2, 1, 5),
        9,
    )
}

/// Appending the fields of a compressed branch word, the most significant first, gives
/// the word laid out as `cbtype_word` says. Each field can be read back from
/// its place in the word, and so can the offset, where it is
/// within range and even.
pub proof fn lemma_cbtype_layout(op: u32, rs: u32, offset: i16, funct3: u32)
    by (bit_vector)
    ensures
        append_field(
            append_field(
                append_field(
                    append_field(
                        append_field(
                            append_field(
                                append_field(
                                    append_field(0u32, funct3 & 0x7, 3),
                                    ((offset >> 8) as u32) & 0x1,
                                    1,
                                ),
                                ((offset >> 3) as u32) & 0x3,
                                2,
                            ),
                            rs & 0x7,
                            3,
                        ),
                        ((offset >> 6) as u32) & 0x3,
                        2,
                    ),
                    ((offset >> 1) as u32) & 0x3,
                    2,
                ),
                ((offset >> 5) as u32) & 0x1,
                1,
            ),
            op & 0x3,
            2,
        ) == cbtype_word(op, rs, offset, funct3),
        cbtype_word(op, rs, offset, funct3) <= 0xffff,
        field(cbtype_word(op, rs, offset, funct3), 13, 3, 0) == funct3 & 0x7,
        field(cbtype_word(op, rs, offset, funct3), 7, 3, 0) == rs & 0x7,
        field(cbtype_word(op, rs, offset, funct3), 0, 2, 0) == op & 0x3,
        -256 <= offset < 256 && offset % 2 == 0
            ==> cbtype_offset(cbtype_word(op, rs, offset, funct3)) == offset,
{
}

/// A compressed branch: a compressed register and a signed 9-bit offset
/// whose lowest bit is not encoded.
pub struct CbType {
    pub op: u8,
    pub rs: CRegister,
    pub offset: i16,
    pub funct3: u8,
}

impl CbType {
    /// The word that these fields encode to.
    pub open spec fn word(self) -> u16 {
        cbtype_word(self.op as u32, self.rs.spec_c_index(), self.offset, self.funct3 as u32) as u16
    }

    /// The instruction with every field empty.
    pub fn null() -> (r: CbType)
        ensures
            r == (CbType {
                op: 0,
                rs: CRegister::S0,
                offset: 0,
                funct3: 0,
            }),
    {
        CbType {
            op: 0,
            rs: CRegister::S0,
            offset: 0,
            funct3: 0,
        }
    }

    /// Encodes the instruction. The offset must lie in the signed 9-bit
    /// range.
    pub fn encode(self) -> (word: u16)
        requires
            fits_signed(9, self.offset as int),
        ensures
            word == self.word(),
    {
        let op: u32 = self.op as u32;
        let rs: u32 = self.rs.c_index();
        let offset: i16 = self.offset;
        let funct3: u32 = self.funct3 as u32;
        let mut bits = BitBuffer::new();
        bits.push(i3(funct3));
        bits.push(i1((offset >> 8) as u32));
        bits.push(i2((offset >> 3) as u32));
        bits.push(i3(rs));
        bits.push(i2((offset >> 6) as u32));
        bits.push(i2((offset >> 1) as u32));
        bits.push(i1((offset >> 5) as u32));
        bits.push(i2(op));
        proof {
            lemma_cbtype_layout(op, rs, offset, funct3);
        }
        bits.bits as u16
    }
}

/// The 16-bit word with these fields, from the most significant bit down:
/// `funct3 | offset[11] | offset[4] | offset[9:8] | offset[10] | offset[6] |
/// offset[7] | offset[3:1] | offset[5] | op`.
/// A value wider than its field is cut down to the field's low bits.
pub open spec fn cjtype_word(op: u32, offset: i16, funct3: u32) -> u32 {
    field(funct3, 0, 3, 13)
        | field(offset as u32, 11, 1, 12)
        | field(offset as u32, 4, 1, 11)
        | field(offset as u32, 8, 2, 9)
        | field(offset as u32, 10, 1, 8)
        | field(offset as u32, 6, 1, 7)
        | field(offset as u32, 7, 1, 6)
        | field(offset as u32, 1, 3, 3)
        | field(offset as u32, 5, 1, 2)
        | field(op, 0, 2, 0)
}

/// The offset that a compressed jump word holds, read from its bits.
pub open spec fn cjtype_offset(word: u32) -> int {
    sign_extended(
        field(word, 12, 1, 11)
            | field(word, 11, 1, 4)
            | field(word, 9, 2, 8)
            | field(word, 8, 1, 10)
            | field(word, 7, 1, 6)
            | field(word, 6, 1, 7)
            | field(word, 3, 3, 1)
            | field(word, 2, 1, 5),
        12,
    )
}

/// Appending the fields of a compressed jump word, the most significant first, gives
/// the word laid out as `cjtype_word` says. Each field can be read back from
/// its place in the word, and so can the offset, where it is
/// within range and even.
pub proof fn lemma_cjtype_layout(op: u32, offset: i16, funct3: u32)
    by (bit_vector)
    ensures
        append_field(
            append_field(
                append_field(
                    append_field(
                        append_field(
                            append_field(
                                append_field(
                                    append_field(
                                        append_field(
                                            append_field(0u32, funct3 & 0x7, 3),
                                            ((offset >> 11) as u32) & 0x1,
                                            1,
                                        ),
                                        ((offset >> 4) as u32) & 0x1,
                                        1,
                                    ),
                                    ((offset >> 8) as u32) & 0x3,
                                    2,
                                ),
                                ((offset >> 10) as u32) & 0x1,
                                1,
                            ),
                            ((offset >> 6) as u32) & 0x1,
                            1,
                        ),
                        ((offset >> 7) as u32) & 0x1,
                        1,
                    ),
                    ((offset >> 1) as u32) & 0x7,
                    3,
                ),
                ((offset >> 5) as u32) & 0x1,
                1,
            ),
            op & 0x3,
            2,
        ) == cjtype_word(op, offset, funct3),
        cjtype_word(op, offset, funct3) <= 0xffff,
        field(cjtype_word(op, offset, funct3), 13, 3, 0) == funct3 & 0x7,
        field(cjtype_word(op, offset, funct3), 0, 2, 0) == op & 0x3,
        -2048 <= offset < 2048 && offset % 2 == 0
            ==> cjtype_offset(cjtype_word(op, offset, funct3)) == offset,
{
}

/// A compressed jump: a signed 12-bit offset
/// whose lowest bit is not encoded.
pub struct CjType {
    pub op: u8,
    pub offset: i16,
    pub funct3: u8,
}

impl CjType {
    /// The word that these fields encode to.
    pub open spec fn word(self) -> u16 {
        cjtype_word(self.op as u32, self.offset, self.funct3 as u32) as u16
    }

    /// The instruction with every field empty.
    pub fn null() -> (r: CjType)
        ensures
            r == (CjType {
                op: 0,
                offset: 0,
                funct3: 0,
            }),
    {
        CjType {
            op: 0,
            offset: 0,
            funct3: 0,
        }
    }

    /// Encodes the instruction. The offset must lie in the signed
    /// 12-bit range.
    pub fn encode(self) -> (word: u16)
        requires
            fits_signed(12, self.offset as int),
        ensures
            word == self.word(),
    {
        let op: u32 = self.op as u32;
        let offset: i16 = self.offset;
        let funct3: u32 = self.funct3 as u32;
        let mut bits = BitBuffer::new();
        bits.push(i3(funct3));
        bits.push(i1((offset >> 11) as u32));
        bits.push(i1((offset >> 4) as u32));
        bits.push(i2((offset >> 8) as u32));
        bits.push(i1((offset >> 10) as u32));
        bits.push(i1((offset >> 6) as u32));
        bits.push(i1((offset >> 7) as u32));
        bits.push(i3((offset >> 1) as u32));
        bits.push(i1((offset >> 5) as u32));
        bits.push(i2(op));
        proof {
            lemma_cjtype_layout(op, offset, funct3);
        }
        bits.bits as u16
    }
}

/// The 32-bit word of a jump-and-link, with the fields
/// `offset[20] | offset[10:1] | offset[11] | offset[19:12] | rd | opcode`,
/// from the most significant bit down. The lowest bit of the offset is
/// not encoded.
pub open spec fn jtype_word(opcode: u32, rd: u32, offset: i32) -> u32 {
    field(offset as u32, 20, 1, 31)
        | field(offset as u32, 1, 10, 21)
        | field(offset as u32, 11, 1, 20)
        | field(offset as u32, 12, 8, 12)
        | field(rd, 0, 5, 7)
        | field(opcode, 0, 7, 0)
}

/// The 32-bit word of an upper-immediate instruction, with the fields
/// `imm[19:0] | rd | opcode`, from the most significant bit down.
pub open spec fn utype_word(opcode: u32, rd: u32, imm20: u32) -> u32 {
    field(imm20, 0, 20, 12) | field(rd, 0, 5, 7) | field(opcode, 0, 7, 0)
}

/// The offset that a jump-and-link word holds, read from its bits.
pub open spec fn jtype_offset(word: u32) -> int {
    sign_extended(
        field(word, 31, 1, 20)
            | field(word, 21, 10, 1)
            | field(word, 20, 1, 11)
            | field(word, 12, 8, 12),
        21,
    )
}

/// Appending the fields of a jump-and-link word, the most significant first, gives
/// the word laid out as `jtype_word` says. Each field can be read back from
/// its place in the word, and so can the offset, where it is
/// within range and even.
pub proof fn lemma_jtype_layout(opcode: u32, rd: u32, offset: i32)
    by (bit_vector)
    ensures
        append_field(
            append_field(
                append_field(
                    append_field(
                        append_field(
                            append_field(0u32, ((offset >> 20) as u32) & 0x1, 1),
                            ((offset >> 1) as u32) & 0x3ff,
                            10,
                        ),
                        ((offset >> 11) as u32) & 0x1,
                        1,
                    ),
                    ((offset >> 12) as u32) & 0xff,
                    8,
                ),
                rd & 0x1f,
                5,
            ),
            opcode & 0x7f,
            7,
        ) == jtype_word(opcode, rd, offset),
        field(jtype_word(opcode, rd, offset), 7, 5, 0) == rd & 0x1f,
        field(jtype_word(opcode, rd, offset), 0, 7, 0) == opcode & 0x7f,
        -1048576 <= offset < 1048576 && offset % 2 == 0
            ==> jtype_offset(jtype_word(opcode, rd, offset)) == offset,
{
}

/// Appending the fields of an upper-immediate word, the most significant first, gives
/// the word laid out as `utype_word` says. Each field can be read back from
/// its place in the word.
pub proof fn lemma_utype_layout(opcode: u32, rd: u32, imm20: u32)
    by (bit_vector)
    ensures
        append_field(append_field(append_field(0u32, imm20 & 0xfffff, 20), rd & 0x1f, 5), opcode & 0x7f, 7)
            == utype_word(opcode, rd, imm20),
        field(utype_word(opcode, rd, imm20), 12, 20, 0) == imm20 & 0xfffff,
        field(utype_word(opcode, rd, imm20), 7, 5, 0) == rd & 0x1f,
        field(utype_word(opcode, rd, imm20), 0, 7, 0) == opcode & 0x7f,
{
}

/// The 12-bit immediate of a shift by a constant: the function code in
/// the bits above the `width` low bits of `shamt`.
pub open spec fn shift_imm(funct: u32, shamt: u8, width: u32) -> i16 {
    (field(funct, 0, (12 - width) as u32, width) | field(shamt as u32, 0, width, 0)) as i16
}

/// Appending the function code and the low bits of the shift amount gives
/// the immediate that `shift_imm` lays out, which is below 2048.
proof fn lemma_shift_imm_5(funct7: u32, shamt: u8)
    by (bit_vector)
    requires
        funct7 < 0x40,
    ensures
        append_field(append_field(0u32, funct7 & 0x7f, 7), (shamt as u32) & 0x1f, 5) == field(
            funct7,
            0,
            7,
            5,
        ) | field(shamt as u32, 0, 5, 0),
        append_field(append_field(0u32, funct7 & 0x7f, 7), (shamt as u32) & 0x1f, 5) < 2048,
{
}

/// Appending the function code and the low bits of the shift amount gives
/// the immediate that `shift_imm` lays out, which is below 2048.
proof fn lemma_shift_imm_6(funct6: u32, shamt: u8)
    by (bit_vector)
    requires
        funct6 < 0x20,
    ensures
        append_field(append_field(0u32, funct6 & 0x3f, 6), (shamt as u32) & 0x3f, 6) == field(
            funct6,
            0,
            6,
            6,
        ) | field(shamt as u32, 0, 6, 0),
        append_field(append_field(0u32, funct6 & 0x3f, 6), (shamt as u32) & 0x3f, 6) < 2048,
{
}

/// The immediate of a shift by a constant of 5 bits under a 7-bit
/// function code. The code's top bit is clear, so the immediate is not
/// negative.
pub fn shift_imm12_5(funct7: u32, shamt: u8) -> (imm12: i16)
    requires
        funct7 < 0x40,
    ensures
        imm12 == shift_imm(funct7, shamt, 5),
        fits_signed(12, imm12 as int),
{
    let mut bits = BitBuffer::new();
    bits.push(i7(funct7));
    bits.push(i5(shamt as u32));
    proof {
        lemma_shift_imm_5(funct7, shamt);
        lemma2_to64();
    }
    bits.bits as i16
}

/// The immediate of a shift by a constant of 6 bits under a 6-bit
/// function code. The code's top bit is clear, so the immediate is not
/// negative.
pub fn shift_imm12_6(funct6: u32, shamt: u8) -> (imm12: i16)
    requires
        funct6 < 0x20,
    ensures
        imm12 == shift_imm(funct6, shamt, 6),
        fits_signed(12, imm12 as int),
{
    let mut bits = BitBuffer::new();
    bits.push(i6(funct6));
    bits.push(i6(shamt as u32));
    proof {
        lemma_shift_imm_6(funct6, shamt);
        lemma2_to64();
    }
    bits.bits as i16
}

} // verus!
