//! Patching the offset field of instructions that were emitted before the
//! address they refer to was known.

use std::ops::Range;
use vstd::prelude::*;
use vstd::arithmetic::power2::lemma2_to64;
use vstd::bytes::{
    lemma_auto_spec_u16_to_from_le_bytes, lemma_auto_spec_u32_to_from_le_bytes,
    spec_u16_from_le_bytes, spec_u16_to_le_bytes, spec_u32_from_le_bytes, spec_u32_to_le_bytes,
    u16_from_le_bytes, u16_to_le_bytes, u32_from_le_bytes, u32_to_le_bytes,
};
use vstd::pervasive::unreached;
use vstd::slice::slice_subrange;
use crate::encoding::{
    append_field, btype_offset, btype_word, cbtype_word, cjtype_word, field, fits_signed, i1,
    i10, i12, i20, i5, i7, i8, is_signed_nbit_integer, itype_immediate, itype_word, jtype_offset,
    jtype_word, lemma_btype_layout, lemma_itype_layout, lemma_jtype_layout, lemma_utype_layout,
    lower12, to_i20_i12_imm_pair, upper20, utype_word, BType, BitBuffer, CbType, CjType, IType,
};
use crate::types::Register;

verus! {

/// The bits of a jump-and-link word that hold its offset.
pub const JUMP_OFFSET_MASK: u32 = 0xffff_f000;

/// The bits of a branch word that hold its offset.
pub const BRANCH_OFFSET_MASK: u32 = 0xfe00_0f80;

/// The bits of a compressed jump word that hold its offset.
pub const C_JUMP_OFFSET_MASK: u16 = 0x1ffc;

/// The bits of a compressed branch word that hold its offset.
pub const C_BRANCH_OFFSET_MASK: u16 = 0x1c7c;

/// The bits of an upper-immediate word that hold its immediate.
pub const AUIPC_OFFSET_MASK: u32 = 0xffff_f000;

/// The bits of an immediate-format word that hold its immediate.
pub const ITYPE_OFFSET_MASK: u32 = 0xfff0_0000;

/// `word` with the bits under `mask` replaced by `bits`, which lie under
/// `mask`; every other bit stays as it was.
pub open spec fn splice(word: u32, mask: u32, bits: u32) -> u32 {
    (word & !mask) | bits
}

/// `splice` on a 16-bit word.
pub open spec fn splice16(word: u16, mask: u16, bits: u16) -> u16 {
    (word & !mask) | bits
}

/// The little-endian 32-bit word at byte `at` of `buf`.
pub open spec fn word32_at(buf: Seq<u8>, at: int) -> u32 {
    spec_u32_from_le_bytes(buf.subrange(at, at + 4))
}

/// The little-endian 16-bit word at byte `at` of `buf`.
pub open spec fn word16_at(buf: Seq<u8>, at: int) -> u16 {
    spec_u16_from_le_bytes(buf.subrange(at, at + 2))
}

/// `buf` with `bytes` written over the bytes from `at` on.
pub open spec fn overwrite(buf: Seq<u8>, at: int, bytes: Seq<u8>) -> Seq<u8> {
    Seq::new(
        buf.len(),
        |i: int|
            if at <= i < at + bytes.len() {
                bytes[i - at]
            } else {
                buf[i]
            },
    )
}

/// `buf` with the 32-bit word at byte `at` set to `word`, where the four
/// bytes lie within `buf`; `buf` itself where they do not.
pub open spec fn with_word32(buf: Seq<u8>, at: int, word: u32) -> Seq<u8> {
    if 0 <= at && at + 4 <= buf.len() {
        overwrite(buf, at, spec_u32_to_le_bytes(word))
    } else {
        buf
    }
}

/// `buf` with the 16-bit word at byte `at` set to `word`, where the two
/// bytes lie within `buf`; `buf` itself where they do not.
pub open spec fn with_word16(buf: Seq<u8>, at: int, word: u16) -> Seq<u8> {
    if 0 <= at && at + 2 <= buf.len() {
        overwrite(buf, at, spec_u16_to_le_bytes(word))
    } else {
        buf
    }
}

/// An upper-immediate word with its immediate replaced by `upper`.
pub open spec fn auipc_patched(word: u32, upper: i32) -> u32 {
    splice(word, AUIPC_OFFSET_MASK, utype_word(0, 0, upper as u32))
}

/// An immediate-format word with its immediate replaced by `lower`.
pub open spec fn itype_patched(word: u32, lower: i16) -> u32 {
    splice(word, ITYPE_OFFSET_MASK, itype_word(0, 0, 0, 0, lower))
}

/// Why a fixup could not be applied.
#[derive(Clone, Copy, PartialEq, Eq, Structural, Debug)]
pub enum FixupError {
    /// The bytes to patch do not all lie within the buffer.
    OutOfBounds,
}

/// The kinds of forward reference that can be patched.
#[derive(Clone, Copy, PartialEq, Eq, Structural, Debug)]
pub enum FixupKind {
    /// A jump-and-link, with a signed 21-bit offset.
    Jump,
    /// A conditional branch, with a signed 13-bit offset.
    Branch,
    /// A compressed jump, with a signed 12-bit offset.
    CJump,
    /// A compressed branch, with a signed 9-bit offset.
    CBranch,
    /// An upper-immediate instruction followed by a jump through a
    /// register, which share a 32-bit offset.
    JumpFar,
    /// An upper-immediate instruction followed by a load, which share a
    /// 32-bit offset.
    Load,
}

impl FixupKind {
    /// The number of bits of the signed displacement that the kind takes.
    pub open spec fn spec_offset_width(self) -> u8 {
        match self {
            FixupKind::Jump => 21,
            FixupKind::Branch => 13,
            FixupKind::CJump => 12,
            FixupKind::CBranch => 9,
            FixupKind::JumpFar => 32,
            FixupKind::Load => 32,
        }
    }

    /// The number of bytes that the kind patches.
    pub open spec fn spec_patch_len(self) -> u64 {
        match self {
            FixupKind::Jump => 4,
            FixupKind::Branch => 4,
            FixupKind::CJump => 2,
            FixupKind::CBranch => 2,
            FixupKind::JumpFar => 8,
            FixupKind::Load => 8,
        }
    }

    /// Whether the kind can take the displacement.
    pub open spec fn spec_accepts(self, offset: i64) -> bool {
        fits_signed(self.spec_offset_width() as nat, offset as int)
    }

    /// The bits of a 32-bit instruction word that hold the offset of a jump
    /// or a branch.
    pub open spec fn offset_mask_32(self) -> u32 {
        match self {
            FixupKind::Jump => JUMP_OFFSET_MASK,
            FixupKind::Branch => BRANCH_OFFSET_MASK,
            _ => 0,
        }
    }

    /// The bits of a 16-bit instruction word that hold the offset of a
    /// compressed jump or branch.
    pub open spec fn offset_mask_16(self) -> u16 {
        match self {
            FixupKind::CJump => C_JUMP_OFFSET_MASK,
            FixupKind::CBranch => C_BRANCH_OFFSET_MASK,
            _ => 0,
        }
    }

    /// What a 32-bit instruction word becomes when a jump or a branch is
    /// patched with the displacement.
    pub open spec fn patched_32(self, word: u32, offset: i64) -> u32 {
        match self {
            FixupKind::Jump => splice(word, JUMP_OFFSET_MASK, jtype_word(0, 0, offset as i32)),
            FixupKind::Branch => splice(
                word,
                BRANCH_OFFSET_MASK,
                btype_word(0, 0, 0, 0, offset as i16),
            ),
            _ => word,
        }
    }

    /// What a 16-bit instruction word becomes when a compressed jump or
    /// branch is patched with the displacement.
    pub open spec fn patched_16(self, word: u16, offset: i64) -> u16 {
        match self {
            FixupKind::CJump => splice16(
                word,
                C_JUMP_OFFSET_MASK,
                cjtype_word(0, offset as i16, 0) as u16,
            ),
            FixupKind::CBranch => splice16(
                word,
                C_BRANCH_OFFSET_MASK,
                cbtype_word(0, 0, offset as i16, 0) as u16,
            ),
            _ => word,
        }
    }

    /// What a buffer becomes when the fixup is applied at byte `start`:
    /// each instruction word that lies within the buffer gets its offset
    /// field replaced, and every other byte stays as it was.
    pub open spec fn patched(self, buf: Seq<u8>, start: int, offset: i64) -> Seq<u8> {
        match self {
            FixupKind::Jump | FixupKind::Branch => with_word32(
                buf,
                start,
                self.patched_32(word32_at(buf, start), offset),
            ),
            FixupKind::CJump | FixupKind::CBranch => with_word16(
                buf,
                start,
                self.patched_16(word16_at(buf, start), offset),
            ),
            FixupKind::JumpFar | FixupKind::Load => {
                let first = with_word32(
                    buf,
                    start,
                    auipc_patched(word32_at(buf, start), upper20(offset as int) as i32),
                );
                with_word32(
                    first,
                    start + 4,
                    itype_patched(word32_at(first, start + 4), lower12(offset as int) as i16),
                )
            },
        }
    }

    /// The number of bits of the signed displacement that the kind takes.
    #[verifier::when_used_as_spec(spec_offset_width)]
    pub fn offset_width(self) -> (r: u8)
        ensures
            r == self.spec_offset_width(),
    {
        match self {
            FixupKind::Jump => 21,
            FixupKind::Branch => 13,
            FixupKind::CJump => 12,
            FixupKind::CBranch => 9,
            FixupKind::JumpFar => 32,
            FixupKind::Load => 32,
        }
    }

    /// The number of bytes that the kind patches.
    #[verifier::when_used_as_spec(spec_patch_len)]
    pub fn patch_len(self) -> (r: u64)
        ensures
            r == self.spec_patch_len(),
    {
        match self {
            FixupKind::Jump => 4,
            FixupKind::Branch => 4,
            FixupKind::CJump => 2,
            FixupKind::CBranch => 2,
            FixupKind::JumpFar => 8,
            FixupKind::Load => 8,
        }
    }

    /// Tells whether the kind can take the displacement.
    #[verifier::when_used_as_spec(spec_accepts)]
    pub fn accepts(self, offset: i64) -> (r: bool)
        ensures
            r == self.spec_accepts(offset),
    {
        is_signed_nbit_integer(self.offset_width(), offset)
    }

    /// Patches the word of a jump or a branch with the displacement.
    pub fn apply_fixup_32(&self, instruction: u32, offset: i64) -> (r: u32)
        requires
            *self == FixupKind::Jump || *self == FixupKind::Branch,
            self.spec_accepts(offset),
        ensures
            r == self.patched_32(instruction, offset),
    {
        proof {
            lemma2_to64();
        }
        match *self {
            FixupKind::Jump => {
                let mask: u32 = encode_jump_offset(-1);
                let bits: u32 = encode_jump_offset(offset as i32);
                proof {
                    lemma_jump_offset_mask(instruction, offset as i32);
                }
                (instruction & !mask) | bits
            },
            FixupKind::Branch => {
                let mask: u32 = encode_branch_offset(-1);
                let bits: u32 = encode_branch_offset(offset as i16);
                proof {
                    lemma_branch_offset_mask(instruction, offset as i16);
                }
                (instruction & !mask) | bits
            },
            _ => unreached(),
        }
    }

    /// Patches the word of a compressed jump or branch with the
    /// displacement.
    pub fn apply_fixup_16(&self, instruction: u16, offset: i64) -> (r: u16)
        requires
            *self == FixupKind::CJump || *self == FixupKind::CBranch,
            self.spec_accepts(offset),
        ensures
            r == self.patched_16(instruction, offset),
    {
        proof {
            lemma2_to64();
        }
        match *self {
            FixupKind::CJump => {
                let mask: u16 = encode_c_jump_offset(-1);
                let bits: u16 = encode_c_jump_offset(offset as i16);
                proof {
                    lemma_c_jump_offset_mask(instruction, offset as i16);
                }
                (instruction & !mask) | bits
            },
            FixupKind::CBranch => {
                let mask: u16 = encode_c_branch_offset(-1);
                let bits: u16 = encode_c_branch_offset(offset as i16);
                proof {
                    lemma_c_branch_offset_mask(instruction, offset as i16);
                }
                (instruction & !mask) | bits
            },
            _ => unreached(),
        }
    }

    /// Applies the fixup to the instruction, or the pair of instructions,
    /// at byte `range.start` of the buffer. It fails when the bytes to
    /// patch do not all lie within the buffer; of a pair, the first
    /// instruction is then still patched where it lies within.
    pub fn apply_fixup(&self, buffer: &mut Vec<u8>, range: Range<u64>, offset: i64) -> (r: Result<
        (),
        FixupError,
    >)
        requires
            self.spec_accepts(offset),
        ensures
            r is Ok <==> range.start + self.spec_patch_len() <= old(buffer)@.len(),
            final(buffer)@ == self.patched(old(buffer)@, range.start as int, offset),
    {
        let start: u64 = range.start;
        match *self {
            FixupKind::Jump | FixupKind::Branch => {
                if !word_in_bounds(buffer, start, 4) {
                    return Err(FixupError::OutOfBounds);
                }
                let at: usize = start as usize;
                let instruction: u32 = read_word32(buffer, at);
                write_word32(buffer, at, self.apply_fixup_32(instruction, offset));
                Ok(())
            },
            FixupKind::CJump | FixupKind::CBranch => {
                if !word_in_bounds(buffer, start, 2) {
                    return Err(FixupError::OutOfBounds);
                }
                let at: usize = start as usize;
                let instruction: u16 = read_word16(buffer, at);
                write_word16(buffer, at, self.apply_fixup_16(instruction, offset));
                Ok(())
            },
            FixupKind::JumpFar | FixupKind::Load => {
                proof {
                    lemma2_to64();
                }
                let (upper, lower) = to_i20_i12_imm_pair(offset as i32);

                if !word_in_bounds(buffer, start, 4) {
                    return Err(FixupError::OutOfBounds);
                }
                let at: usize = start as usize;
                let auipc: u32 = read_word32(buffer, at);
                write_word32(buffer, at, apply_auipc_fixup(auipc, upper));

                if !word_in_bounds(buffer, start + 4, 4) {
                    return Err(FixupError::OutOfBounds);
                }
                let itype: u32 = read_word32(buffer, at + 4);
                write_word32(buffer, at + 4, apply_itype_fixup(itype, lower));
                Ok(())
            },
        }
    }
}

/// Tells whether the `len` bytes from byte `start` on lie within the buffer.
fn word_in_bounds(buffer: &Vec<u8>, start: u64, len: u64) -> (r: bool)
    requires
        len <= 8,
    ensures
        r == (start + len <= buffer@.len()),
        buffer@.len() <= usize::MAX,
{
    let size: usize = buffer.len();
    size as u64 >= len && start <= size as u64 - len
}

/// Reads the little-endian 32-bit word at byte `at`.
fn read_word32(buffer: &Vec<u8>, at: usize) -> (r: u32)
    requires
        at + 4 <= buffer@.len() <= usize::MAX,
    ensures
        r == word32_at(buffer@, at as int),
{
    u32_from_le_bytes(slice_subrange(buffer.as_slice(), at, at + 4))
}

/// Reads the little-endian 16-bit word at byte `at`.
fn read_word16(buffer: &Vec<u8>, at: usize) -> (r: u16)
    requires
        at + 2 <= buffer@.len() <= usize::MAX,
    ensures
        r == word16_at(buffer@, at as int),
{
    u16_from_le_bytes(slice_subrange(buffer.as_slice(), at, at + 2))
}

/// Writes `bytes` over the bytes of the buffer from byte `at` on.
fn write_bytes(buffer: &mut Vec<u8>, at: usize, bytes: &Vec<u8>)
    requires
        at + bytes@.len() <= old(buffer)@.len() <= usize::MAX,
    ensures
        final(buffer)@ == overwrite(old(buffer)@, at as int, bytes@),
{
    let ghost before: Seq<u8> = buffer@;
    let mut k: usize = 0;
    while k < bytes.len()
        invariant
            k <= bytes@.len(),
            at + bytes@.len() <= buffer@.len() <= usize::MAX,
            buffer@.len() == before.len(),
            forall|i: int|
                0 <= i < buffer@.len() ==> buffer@[i] == if at <= i < at + k {
                    bytes@[i - at]
                } else {
                    before[i]
                },
        decreases bytes@.len() - k,
    {
        buffer.set(at + k, bytes[k]);
        k += 1;
    }
    assert(buffer@ =~= overwrite(before, at as int, bytes@));
}

/// Writes the 32-bit word at byte `at`, little-endian.
fn write_word32(buffer: &mut Vec<u8>, at: usize, word: u32)
    requires
        at + 4 <= old(buffer)@.len() <= usize::MAX,
    ensures
        final(buffer)@ == with_word32(old(buffer)@, at as int, word),
{
    let bytes: Vec<u8> = u32_to_le_bytes(word);
    write_bytes(buffer, at, &bytes);
}

/// Writes the 16-bit word at byte `at`, little-endian.
fn write_word16(buffer: &mut Vec<u8>, at: usize, word: u16)
    requires
        at + 2 <= old(buffer)@.len() <= usize::MAX,
    ensures
        final(buffer)@ == with_word16(old(buffer)@, at as int, word),
{
    let bytes: Vec<u8> = u16_to_le_bytes(word);
    write_bytes(buffer, at, &bytes);
}

/// Replaces the immediate of an upper-immediate word.
pub fn apply_auipc_fixup(instruction: u32, offset: i32) -> (r: u32)
    ensures
        r == auipc_patched(instruction, offset),
{
    let mask: u32 = encode_auipc_offset(-1);
    let bits: u32 = encode_auipc_offset(offset);
    proof {
        lemma_auipc_offset_mask(instruction, offset);
    }
    (instruction & !mask) | bits
}

/// Replaces the immediate of an immediate-format word.
pub fn apply_itype_fixup(instruction: u32, offset: i16) -> (r: u32)
    requires
        fits_signed(12, offset as int),
    ensures
        r == itype_patched(instruction, offset),
{
    proof {
        lemma2_to64();
    }
    let mask: u32 = encode_itype_offset(-1);
    let bits: u32 = encode_itype_offset(offset);
    proof {
        lemma_itype_offset_mask(instruction, offset);
    }
    (instruction & !mask) | bits
}

/// The jump-and-link word that holds the offset and nothing else.
pub fn encode_jump_offset(offset: i32) -> (r: u32)
    ensures
        r == jtype_word(0, 0, offset),
{
    let mut bits = BitBuffer::new();
    bits.push(i1((offset >> 20) as u32));
    bits.push(i10((offset >> 1) as u32));
    bits.push(i1((offset >> 11) as u32));
    bits.push(i8((offset >> 12) as u32));
    bits.push(i12(0));
    proof {
        lemma_jump_offset_composed(offset);
    }
    bits.bits
}

/// The branch word that holds the offset and nothing else.
pub fn encode_branch_offset(offset: i16) -> (r: u32)
    requires
        fits_signed(13, offset as int),
    ensures
        r == btype_word(0, 0, 0, 0, offset),
{
    BType { offset, ..BType::null() }.encode()
}

/// The upper-immediate word that holds the immediate and nothing else.
pub fn encode_auipc_offset(offset: i32) -> (r: u32)
    ensures
        r == utype_word(0, 0, offset as u32),
{
    let mut bits = BitBuffer::new();
    bits.push(i20(offset as u32));
    bits.push(i5(0));
    bits.push(i7(0));
    proof {
        lemma_utype_layout(0, 0, offset as u32);
    }
    bits.bits
}

/// The immediate-format word that holds the immediate and nothing else.
pub fn encode_itype_offset(offset: i16) -> (r: u32)
    requires
        fits_signed(12, offset as int),
    ensures
        r == itype_word(0, 0, 0, 0, offset),
{
    IType { imm12: offset, ..IType::null() }.encode()
}

/// The compressed jump word that holds the offset and nothing else.
pub fn encode_c_jump_offset(offset: i16) -> (r: u16)
    requires
        fits_signed(12, offset as int),
    ensures
        r == cjtype_word(0, offset, 0) as u16,
{
    CjType { offset, ..CjType::null() }.encode()
}

/// The compressed branch word that holds the offset and nothing else.
pub fn encode_c_branch_offset(offset: i16) -> (r: u16)
    requires
        fits_signed(9, offset as int),
    ensures
        r == cbtype_word(0, 0, offset, 0) as u16,
{
    CbType { offset, ..CbType::null() }.encode()
}

/// Appending these fields, the most significant first, gives the word
/// that `jtype_word` lays out.
proof fn lemma_jump_offset_composed(offset: i32)
    by (bit_vector)
    ensures
        append_field(
            append_field(
                append_field(
                    append_field(
                        append_field(0u32, ((offset >> 20) as u32) & 0x1, 1),
                        ((offset >> 1) as u32) & 0x3ff,
                        10,
                    ),
                    ((offset >> 11) as u32) & 0x1,
                    1,
                ),
                ((offset >> 12) as u32) & 0xff,
                8,
            ),
            0u32 & 0xfff,
            12,
        ) == jtype_word(0, 0, offset),
{
}

/// In a jump-and-link word, the offset set to all ones fills exactly the
/// bits of the mask; replacing the offset of any word changes no bit
/// outside the mask and leaves the new offset's bits under it.
pub proof fn lemma_jump_offset_mask(word: u32, offset: i32)
    by (bit_vector)
    ensures
        jtype_word(0, 0, -1i32) == JUMP_OFFSET_MASK,
        (splice(word, JUMP_OFFSET_MASK, jtype_word(0, 0, offset)) ^ word) & !JUMP_OFFSET_MASK == 0,
        splice(word, JUMP_OFFSET_MASK, jtype_word(0, 0, offset)) & JUMP_OFFSET_MASK
            == jtype_word(0, 0, offset),
{
}

/// Replacing the offset of a jump-and-link word that was encoded with the
/// offset `before` gives the word that the same fields encode to with the
/// new offset; two such words differ only under the mask.
pub proof fn lemma_jump_offset_replaced(opcode: u32, rd: u32, before: i32, offset: i32)
    by (bit_vector)
    ensures
        splice(jtype_word(opcode, rd, before), JUMP_OFFSET_MASK, jtype_word(0, 0, offset))
            == jtype_word(opcode, rd, offset),
        (jtype_word(opcode, rd, before) ^ jtype_word(opcode, rd, offset)) & !JUMP_OFFSET_MASK == 0,
{
}

/// In a branch word, the offset set to all ones fills exactly the
/// bits of the mask; replacing the offset of any word changes no bit
/// outside the mask and leaves the new offset's bits under it.
pub proof fn lemma_branch_offset_mask(word: u32, offset: i16)
    by (bit_vector)
    ensures
        btype_word(0, 0, 0, 0, -1i16) == BRANCH_OFFSET_MASK,
        (splice(word, BRANCH_OFFSET_MASK, btype_word(0, 0, 0, 0, offset)) ^ word)
            & !BRANCH_OFFSET_MASK
            == 0,
        splice(word, BRANCH_OFFSET_MASK, btype_word(0, 0, 0, 0, offset)) & BRANCH_OFFSET_MASK
            == btype_word(0, 0, 0, 0, offset),
{
}

/// Replacing the offset of a branch word that was encoded with the
/// offset `before` gives the word that the same fields encode to with the
/// new offset; two such words differ only under the mask.
pub proof fn lemma_branch_offset_replaced(
    opcode: u32,
    funct3: u32,
    rs1: u32,
    rs2: u32,
    before: i16,
    offset: i16,
)
    by (bit_vector)
    ensures
        splice(btype_word(opcode, funct3, rs1, rs2, before), BRANCH_OFFSET_MASK, btype_word(0, 0, 0, 0, offset))
            == btype_word(opcode, funct3, rs1, rs2, offset),
        (btype_word(opcode, funct3, rs1, rs2, before) ^ btype_word(opcode, funct3, rs1, rs2, offset))
            & !BRANCH_OFFSET_MASK
            == 0,
{
}

/// In a compressed jump word, the offset set to all ones fills exactly the
/// bits of the mask; replacing the offset of any word changes no bit
/// outside the mask and leaves the new offset's bits under it.
pub proof fn lemma_c_jump_offset_mask(word: u16, offset: i16)
    by (bit_vector)
    ensures
        cjtype_word(0, -1i16, 0) as u16 == C_JUMP_OFFSET_MASK,
        (splice16(word, C_JUMP_OFFSET_MASK, cjtype_word(0, offset, 0) as u16) ^ word)
            & !C_JUMP_OFFSET_MASK
            == 0,
        splice16(word, C_JUMP_OFFSET_MASK, cjtype_word(0, offset, 0) as u16) & C_JUMP_OFFSET_MASK
            == cjtype_word(0, offset, 0) as u16,
{
}

/// Replacing the offset of a compressed jump word that was encoded with the
/// offset `before` gives the word that the same fields encode to with the
/// new offset; two such words differ only under the mask.
pub proof fn lemma_c_jump_offset_replaced(op: u32, funct3: u32, before: i16, offset: i16)
    by (bit_vector)
    ensures
        splice16(cjtype_word(op, before, funct3) as u16, C_JUMP_OFFSET_MASK, cjtype_word(0, offset, 0) as u16)
            == cjtype_word(op, offset, funct3) as u16,
        (cjtype_word(op, before, funct3) as u16 ^ cjtype_word(op, offset, funct3) as u16)
            & !C_JUMP_OFFSET_MASK
            == 0,
{
}

/// In a compressed branch word, the offset set to all ones fills exactly the
/// bits of the mask; replacing the offset of any word changes no bit
/// outside the mask and leaves the new offset's bits under it.
pub proof fn lemma_c_branch_offset_mask(word: u16, offset: i16)
    by (bit_vector)
    ensures
        cbtype_word(0, 0, -1i16, 0) as u16 == C_BRANCH_OFFSET_MASK,
        (splice16(word, C_BRANCH_OFFSET_MASK, cbtype_word(0, 0, offset, 0) as u16) ^ word)
            & !C_BRANCH_OFFSET_MASK
            == 0,
        splice16(word, C_BRANCH_OFFSET_MASK, cbtype_word(0, 0, offset, 0) as u16)
            & C_BRANCH_OFFSET_MASK
            == cbtype_word(0, 0, offset, 0) as u16,
{
}

/// Replacing the offset of a compressed branch word that was encoded with the
/// offset `before` gives the word that the same fields encode to with the
/// new offset; two such words differ only under the mask.
pub proof fn lemma_c_branch_offset_replaced(op: u32, rs: u32, funct3: u32, before: i16, offset: i16)
    by (bit_vector)
    ensures
        splice16(cbtype_word(op, rs, before, funct3) as u16, C_BRANCH_OFFSET_MASK, cbtype_word(0, 0, offset, 0) as u16)
            == cbtype_word(op, rs, offset, funct3) as u16,
        (cbtype_word(op, rs, before, funct3) as u16 ^ cbtype_word(op, rs, offset, funct3) as u16)
            & !C_BRANCH_OFFSET_MASK
            == 0,
{
}

/// In an upper-immediate word, the offset set to all ones fills exactly the
/// bits of the mask; replacing the offset of any word changes no bit
/// outside the mask and leaves the new offset's bits under it.
pub proof fn lemma_auipc_offset_mask(word: u32, offset: i32)
    by (bit_vector)
    ensures
        utype_word(0, 0, -1i32 as u32) == AUIPC_OFFSET_MASK,
        (splice(word, AUIPC_OFFSET_MASK, utype_word(0, 0, offset as u32)) ^ word)
            & !AUIPC_OFFSET_MASK
            == 0,
        splice(word, AUIPC_OFFSET_MASK, utype_word(0, 0, offset as u32)) & AUIPC_OFFSET_MASK
            == utype_word(0, 0, offset as u32),
{
}

/// Replacing the offset of an upper-immediate word that was encoded with the
/// offset `before` gives the word that the same fields encode to with the
/// new offset; two such words differ only under the mask.
pub proof fn lemma_auipc_offset_replaced(opcode: u32, rd: u32, before: i32, offset: i32)
    by (bit_vector)
    ensures
        splice(utype_word(opcode, rd, before as u32), AUIPC_OFFSET_MASK, utype_word(0, 0, offset as u32))
            == utype_word(opcode, rd, offset as u32),
        (utype_word(opcode, rd, before as u32) ^ utype_word(opcode, rd, offset as u32))
            & !AUIPC_OFFSET_MASK
            == 0,
{
}

/// In an immediate-format word, the offset set to all ones fills exactly the
/// bits of the mask; replacing the offset of any word changes no bit
/// outside the mask and leaves the new offset's bits under it.
pub proof fn lemma_itype_offset_mask(word: u32, offset: i16)
    by (bit_vector)
    ensures
        itype_word(0, 0, 0, 0, -1i16) == ITYPE_OFFSET_MASK,
        (splice(word, ITYPE_OFFSET_MASK, itype_word(0, 0, 0, 0, offset)) ^ word)
            & !ITYPE_OFFSET_MASK
            == 0,
        splice(word, ITYPE_OFFSET_MASK, itype_word(0, 0, 0, 0, offset)) & ITYPE_OFFSET_MASK
            == itype_word(0, 0, 0, 0, offset),
{
}

/// Replacing the offset of an immediate-format word that was encoded with the
/// offset `before` gives the word that the same fields encode to with the
/// new offset; two such words differ only under the mask.
pub proof fn lemma_itype_offset_replaced(
    opcode: u32,
    funct3: u32,
    rd: u32,
    rs: u32,
    before: i16,
    offset: i16,
)
    by (bit_vector)
    ensures
        splice(itype_word(opcode, funct3, rd, rs, before), ITYPE_OFFSET_MASK, itype_word(0, 0, 0, 0, offset))
            == itype_word(opcode, funct3, rd, rs, offset),
        (itype_word(opcode, funct3, rd, rs, before) ^ itype_word(opcode, funct3, rd, rs, offset))
            & !ITYPE_OFFSET_MASK
            == 0,
{
}

/// Encoding a branch with its offset gives the same word as encoding it
/// with the offset 0 and applying a branch fixup with the offset to that
/// word.
pub proof fn lemma_branch_fixup_round_trip(fields: BType)
    ensures
        FixupKind::Branch.patched_32((BType { offset: 0, ..fields }).word(), fields.offset as i64)
            == fields.word(),
{
    lemma_branch_offset_replaced(
        fields.opcode.spec_code(),
        fields.funct3 as u32,
        fields.rs1.spec_index(),
        fields.rs2.spec_index(),
        0,
        fields.offset,
    );
}

/// Encoding a jump-and-link with its offset gives the same word as
/// encoding it with the offset 0 and applying a jump fixup with the offset
/// to that word.
pub proof fn lemma_jump_fixup_round_trip(opcode: u32, rd: Register, offset: i32)
    ensures
        FixupKind::Jump.patched_32(jtype_word(opcode, rd.spec_index(), 0), offset as i64)
            == jtype_word(opcode, rd.spec_index(), offset),
{
    lemma_jump_offset_replaced(opcode, rd.spec_index(), 0, offset);
}

/// Encoding a compressed jump with its offset gives the same word as
/// encoding it with the offset 0 and applying a compressed jump fixup with
/// the offset to that word.
pub proof fn lemma_c_jump_fixup_round_trip(fields: CjType)
    ensures
        FixupKind::CJump.patched_16((CjType { offset: 0, ..fields }).word(), fields.offset as i64)
            == fields.word(),
{
    lemma_c_jump_offset_replaced(fields.op as u32, fields.funct3 as u32, 0, fields.offset);
}

/// Encoding a compressed branch with its offset gives the same word as
/// encoding it with the offset 0 and applying a compressed branch fixup
/// with the offset to that word.
pub proof fn lemma_c_branch_fixup_round_trip(fields: CbType)
    ensures
        FixupKind::CBranch.patched_16((CbType { offset: 0, ..fields }).word(), fields.offset as i64)
            == fields.word(),
{
    lemma_c_branch_offset_replaced(
        fields.op as u32,
        fields.rs.spec_c_index(),
        fields.funct3 as u32,
        0,
        fields.offset,
    );
}

/// Encoding an upper-immediate instruction and the immediate-format
/// instruction after it with the two halves of a displacement gives the
/// same words as encoding both with 0 and replacing the immediate of each
/// with its half.
pub proof fn lemma_far_fixup_round_trip(opcode: u32, rd: Register, fields: IType, offset: i32)
    ensures
        auipc_patched(utype_word(opcode, rd.spec_index(), 0), upper20(offset as int) as i32)
            == utype_word(opcode, rd.spec_index(), upper20(offset as int) as i32 as u32),
        itype_patched((IType { imm12: 0, ..fields }).word(), lower12(offset as int) as i16)
            == (IType {
            imm12: lower12(offset as int) as i16,
            ..fields
        }).word(),
{
    lemma_auipc_offset_replaced(opcode, rd.spec_index(), 0, upper20(offset as int) as i32);
    lemma_itype_offset_replaced(
        fields.opcode.spec_code(),
        fields.funct3 as u32,
        fields.rd.spec_index(),
        fields.rs.spec_index(),
        0,
        lower12(offset as int) as i16,
    );
}

/// A fixup changes no bit of an instruction word outside the offset
/// field of its kind.
pub proof fn lemma_fixup_32_isolated(kind: FixupKind, word: u32, offset: i64)
    requires
        kind == FixupKind::Jump || kind == FixupKind::Branch,
    ensures
        (kind.patched_32(word, offset) ^ word) & !kind.offset_mask_32() == 0,
{
    lemma_jump_offset_mask(word, offset as i32);
    lemma_branch_offset_mask(word, offset as i16);
}

/// A fixup changes no bit of a compressed instruction word outside the
/// offset field of its kind.
pub proof fn lemma_fixup_16_isolated(kind: FixupKind, word: u16, offset: i64)
    requires
        kind == FixupKind::CJump || kind == FixupKind::CBranch,
    ensures
        (kind.patched_16(word, offset) ^ word) & !kind.offset_mask_16() == 0,
{
    lemma_c_jump_offset_mask(word, offset as i16);
    lemma_c_branch_offset_mask(word, offset as i16);
}

/// The two halves of a displacement add up to it, and the lower half lies
/// in the signed 12-bit range.
pub proof fn lemma_split_adds_up(offset: int)
    ensures
        upper20(offset) * 4096 + lower12(offset) == offset,
        -2048 <= lower12(offset) < 2048,
{
}

/// After a branch fixup with an even offset within range, the word holds
/// that offset, and its opcode, function code and registers are what they
/// were.
pub proof fn lemma_branch_fixup_sets_offset(
    opcode: u32,
    funct3: u32,
    rs1: u32,
    rs2: u32,
    before: i16,
    offset: i16,
)
    requires
        -4096 <= offset < 4096,
        offset % 2 == 0,
    ensures
        ({
            let patched = FixupKind::Branch.patched_32(
                btype_word(opcode, funct3, rs1, rs2, before),
                offset as i64,
            );
            &&& btype_offset(patched) == offset
            &&& field(patched, 0, 7, 0) == opcode & 0x7f
            &&& field(patched, 12, 3, 0) == funct3 & 0x7
            &&& field(patched, 15, 5, 0) == rs1 & 0x1f
            &&& field(patched, 20, 5, 0) == rs2 & 0x1f
        }),
{
    lemma_branch_offset_replaced(opcode, funct3, rs1, rs2, before, offset);
    lemma_btype_layout(opcode, funct3, rs1, rs2, offset);
}

/// After a jump fixup with an even offset within range, the word holds
/// that offset, and its opcode and register are what they were.
pub proof fn lemma_jump_fixup_sets_offset(opcode: u32, rd: u32, before: i32, offset: i32)
    requires
        -0x10_0000 <= offset < 0x10_0000,
        offset % 2 == 0,
    ensures
        ({
            let patched = FixupKind::Jump.patched_32(jtype_word(opcode, rd, before), offset as i64);
            &&& jtype_offset(patched) == offset
            &&& field(patched, 0, 7, 0) == opcode & 0x7f
            &&& field(patched, 7, 5, 0) == rd & 0x1f
        }),
{
    lemma_jump_offset_replaced(opcode, rd, before, offset);
    lemma_jtype_layout(opcode, rd, offset);
}

/// After the two replacements of a far fixup, the upper-immediate word
/// holds the upper half of the displacement in its 20 bits and the
/// immediate-format word holds the lower half; the other fields of both
/// are what they were.
pub proof fn lemma_far_fixup_sets_halves(
    opcode: u32,
    rd: u32,
    first_before: i32,
    second_opcode: u32,
    funct3: u32,
    second_rd: u32,
    rs: u32,
    second_before: i16,
    offset: i32,
)
    ensures
        ({
            let first = auipc_patched(
                utype_word(opcode, rd, first_before as u32),
                upper20(offset as int) as i32,
            );
            let second = itype_patched(
                itype_word(second_opcode, funct3, second_rd, rs, second_before),
                lower12(offset as int) as i16,
            );
            &&& field(first, 12, 20, 0) == (upper20(offset as int) as i32 as u32) & 0xfffff
            &&& field(first, 0, 7, 0) == opcode & 0x7f
            &&& field(first, 7, 5, 0) == rd & 0x1f
            &&& itype_immediate(second) == lower12(offset as int)
            &&& field(second, 0, 7, 0) == second_opcode & 0x7f
            &&& field(second, 7, 5, 0) == second_rd & 0x1f
            &&& field(second, 12, 3, 0) == funct3 & 0x7
            &&& field(second, 15, 5, 0) == rs & 0x1f
        }),
{
    let upper = upper20(offset as int) as i32;
    let lower = lower12(offset as int) as i16;
    lemma_auipc_offset_replaced(opcode, rd, first_before, upper);
    lemma_utype_layout(opcode, rd, upper as u32);
    lemma_itype_offset_replaced(second_opcode, funct3, second_rd, rs, second_before, lower);
    lemma_itype_layout(second_opcode, funct3, second_rd, rs, lower);
}

/// The halves that `upper20` and `lower12` give are the only ones that
/// add up to the displacement with the lower half in the signed 12-bit
/// range.
pub proof fn lemma_split_is_unique(offset: int, upper: int, lower: int)
    requires
        upper * 4096 + lower == offset,
        -2048 <= lower < 2048,
    ensures
        upper == upper20(offset),
        lower == lower12(offset),
{
}

/// A fixup leaves the length of the buffer and every byte outside the
/// instruction, or the pair of instructions, that it patches.
pub proof fn lemma_patched_frame(kind: FixupKind, buf: Seq<u8>, start: int, offset: i64)
    ensures
        kind.patched(buf, start, offset).len() == buf.len(),
        forall|i: int|
            0 <= i < buf.len() && !(start <= i < start + kind.spec_patch_len())
                ==> #[trigger] kind.patched(buf, start, offset)[i] == buf[i],
{
    lemma_auto_spec_u32_to_from_le_bytes();
    lemma_auto_spec_u16_to_from_le_bytes();
}

/// Where the instruction lies within the buffer, the word read at its
/// place after a jump or branch fixup is the word read there before,
/// patched.
pub proof fn lemma_patched_word_32(kind: FixupKind, buf: Seq<u8>, start: int, offset: i64)
    requires
        kind == FixupKind::Jump || kind == FixupKind::Branch,
        0 <= start,
        start + 4 <= buf.len(),
    ensures
        word32_at(kind.patched(buf, start, offset), start) == kind.patched_32(
            word32_at(buf, start),
            offset,
        ),
{
    lemma_auto_spec_u32_to_from_le_bytes();
    let word = kind.patched_32(word32_at(buf, start), offset);
    assert(kind.patched(buf, start, offset).subrange(start, start + 4) =~= spec_u32_to_le_bytes(
        word,
    ));
}

/// Where the instruction lies within the buffer, the word read at its
/// place after a compressed jump or branch fixup is the word read there
/// before, patched.
pub proof fn lemma_patched_word_16(kind: FixupKind, buf: Seq<u8>, start: int, offset: i64)
    requires
        kind == FixupKind::CJump || kind == FixupKind::CBranch,
        0 <= start,
        start + 2 <= buf.len(),
    ensures
        word16_at(kind.patched(buf, start, offset), start) == kind.patched_16(
            word16_at(buf, start),
            offset,
        ),
{
    lemma_auto_spec_u16_to_from_le_bytes();
    let word = kind.patched_16(word16_at(buf, start), offset);
    assert(kind.patched(buf, start, offset).subrange(start, start + 2) =~= spec_u16_to_le_bytes(
        word,
    ));
}

/// Where both instructions lie within the buffer, the words read at
/// their places after a far fixup are the words read there before, the
/// first with the upper half of the displacement for its immediate and
/// the second with the lower half.
pub proof fn lemma_patched_pair(kind: FixupKind, buf: Seq<u8>, start: int, offset: i64)
    requires
        kind == FixupKind::JumpFar || kind == FixupKind::Load,
        0 <= start,
        start + 8 <= buf.len(),
    ensures
        word32_at(kind.patched(buf, start, offset), start) == auipc_patched(
            word32_at(buf, start),
            upper20(offset as int) as i32,
        ),
        word32_at(kind.patched(buf, start, offset), start + 4) == itype_patched(
            word32_at(buf, start + 4),
            lower12(offset as int) as i16,
        ),
{
    lemma_auto_spec_u32_to_from_le_bytes();
    let first_word = auipc_patched(word32_at(buf, start), upper20(offset as int) as i32);
    let first = with_word32(buf, start, first_word);
    assert(first.subrange(start + 4, start + 8) =~= buf.subrange(start + 4, start + 8));
    let second_word = itype_patched(word32_at(first, start + 4), lower12(offset as int) as i16);
    let second = with_word32(first, start + 4, second_word);
    assert(second.subrange(start + 4, start + 8) =~= spec_u32_to_le_bytes(second_word));
    assert(second.subrange(start, start + 4) =~= spec_u32_to_le_bytes(first_word));
}

} // verus!
