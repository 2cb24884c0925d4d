use mitte_riscv::encoding::{to_i20_i12_imm_pair, BType, CbType, CjType, IType, Opcode};
use mitte_riscv::fixup::{
    apply_auipc_fixup, apply_itype_fixup, encode_auipc_offset, encode_branch_offset,
    encode_c_branch_offset, encode_c_jump_offset, encode_itype_offset, encode_jump_offset,
    FixupError, FixupKind, AUIPC_OFFSET_MASK, BRANCH_OFFSET_MASK, C_BRANCH_OFFSET_MASK,
    C_JUMP_OFFSET_MASK, ITYPE_OFFSET_MASK, JUMP_OFFSET_MASK,
};
use mitte_riscv::{rv32c, rv32i, rv64i, CRegister, Register};

fn branch_offset_of(word: u32) -> i32 {
    let raw = ((word >> 31) & 1) << 12
        | ((word >> 7) & 1) << 11
        | ((word >> 25) & 0x3f) << 5
        | ((word >> 8) & 0xf) << 1;
    ((raw << 19) as i32) >> 19
}

fn jump_offset_of(word: u32) -> i32 {
    let raw = ((word >> 31) & 1) << 20
        | ((word >> 12) & 0xff) << 12
        | ((word >> 20) & 1) << 11
        | ((word >> 21) & 0x3ff) << 1;
    ((raw << 11) as i32) >> 11
}

fn upper_immediate_of(word: u32) -> i32 {
    (word as i32) >> 12
}

fn immediate_of(word: u32) -> i32 {
    (word as i32) >> 20
}

fn patched_32(kind: FixupKind, word: u32, offset: i64) -> u32 {
    let mut buffer = word.to_le_bytes().to_vec();
    assert_eq!(kind.apply_fixup(&mut buffer, 0..4, offset), Ok(()));
    u32::from_le_bytes([buffer[0], buffer[1], buffer[2], buffer[3]])
}

fn patched_16(kind: FixupKind, word: u16, offset: i64) -> u16 {
    let mut buffer = word.to_le_bytes().to_vec();
    assert_eq!(kind.apply_fixup(&mut buffer, 0..2, offset), Ok(()));
    u16::from_le_bytes([buffer[0], buffer[1]])
}

#[test]
fn branch_encoded_fresh_equals_branch_patched() {
    let mut offset: i16 = -4096;
    while offset <= 4094 {
        let fresh = rv32i::bne(Register::A0, Register::T6, offset);
        let placeholder = rv32i::bne(Register::A0, Register::T6, 0);
        assert_eq!(fresh, patched_32(FixupKind::Branch, placeholder, offset as i64));
        assert_eq!(fresh, FixupKind::Branch.apply_fixup_32(placeholder, offset as i64));
        assert_eq!(branch_offset_of(fresh), offset as i32);
        offset += 2;
    }
}

#[test]
fn jump_encoded_fresh_equals_jump_patched() {
    for offset in [0i32, 2, 8, -2, -4, 0x7fe, 0x800, 0xffe, 0x1000, 0xf_fffe, -0x10_0000, 0x5_5554, -0x5_5556] {
        let fresh = rv32i::jal(Register::Ra, offset);
        let placeholder = rv32i::jal(Register::Ra, 0);
        assert_eq!(fresh, patched_32(FixupKind::Jump, placeholder, offset as i64));
        assert_eq!(fresh, FixupKind::Jump.apply_fixup_32(placeholder, offset as i64));
        assert_eq!(jump_offset_of(fresh), offset);
    }
}

#[test]
fn compressed_jump_encoded_fresh_equals_patched() {
    let mut offset: i16 = -2048;
    while offset <= 2046 {
        let fresh = rv32c::j(offset);
        let placeholder = rv32c::j(0);
        assert_eq!(fresh, patched_16(FixupKind::CJump, placeholder, offset as i64));
        assert_eq!(fresh, FixupKind::CJump.apply_fixup_16(placeholder, offset as i64));
        offset += 2;
    }
}

#[test]
fn compressed_branch_encoded_fresh_equals_patched() {
    let mut offset: i16 = -256;
    while offset <= 254 {
        let fresh = rv32c::bnez(CRegister::A3, offset);
        let placeholder = rv32c::bnez(CRegister::A3, 0);
        assert_eq!(fresh, patched_16(FixupKind::CBranch, placeholder, offset as i64));
        assert_eq!(fresh, FixupKind::CBranch.apply_fixup_16(placeholder, offset as i64));
        offset += 2;
    }
}

#[test]
fn far_load_encoded_fresh_equals_patched() {
    for offset in [0i32, 4, -4, 0x7ff, 0x800, 0x1800, -0x800, -0x801, 0x1234_5678, -0x1234_5678, 0x7fff_f7ff, i32::MIN] {
        let (upper, lower) = to_i20_i12_imm_pair(offset);
        let mut expected = rv32i::auipc(Register::A0, upper).to_le_bytes().to_vec();
        expected.extend_from_slice(&rv32i::lw(Register::A0, Register::A0, lower).to_le_bytes());
        for kind in [FixupKind::Load, FixupKind::JumpFar] {
            let mut buffer = rv32i::auipc(Register::A0, 0).to_le_bytes().to_vec();
            buffer.extend_from_slice(&rv32i::lw(Register::A0, Register::A0, 0).to_le_bytes());
            assert_eq!(kind.apply_fixup(&mut buffer, 0..8, offset as i64), Ok(()));
            assert_eq!(buffer, expected);
        }
    }
}

#[test]
fn far_fixup_wraps_the_upper_half_at_the_top_of_the_range() {
    let (upper, lower) = to_i20_i12_imm_pair(i32::MAX);
    assert_eq!((upper, lower), (0x8_0000, -1));
    let mut buffer = rv32i::auipc(Register::T0, 0).to_le_bytes().to_vec();
    buffer.extend_from_slice(&rv32i::jalr(Register::Ra, Register::T0, 0).to_le_bytes());
    assert_eq!(FixupKind::JumpFar.apply_fixup(&mut buffer, 0..8, i32::MAX as i64), Ok(()));
    let first = u32::from_le_bytes([buffer[0], buffer[1], buffer[2], buffer[3]]);
    let second = u32::from_le_bytes([buffer[4], buffer[5], buffer[6], buffer[7]]);
    assert_eq!(first, 0x8000_0297);
    assert_eq!(second, rv32i::jalr(Register::Ra, Register::T0, -1));
}

#[test]
fn masks_are_the_words_of_an_offset_of_all_ones() {
    assert_eq!(encode_jump_offset(-1), JUMP_OFFSET_MASK);
    assert_eq!(encode_branch_offset(-1), BRANCH_OFFSET_MASK);
    assert_eq!(encode_c_jump_offset(-1), C_JUMP_OFFSET_MASK);
    assert_eq!(encode_c_branch_offset(-1), C_BRANCH_OFFSET_MASK);
    assert_eq!(encode_auipc_offset(-1), AUIPC_OFFSET_MASK);
    assert_eq!(encode_itype_offset(-1), ITYPE_OFFSET_MASK);
    assert_eq!(JUMP_OFFSET_MASK, 0xffff_f000);
    assert_eq!(BRANCH_OFFSET_MASK, 0xfe00_0f80);
    assert_eq!(C_JUMP_OFFSET_MASK, 0x1ffc);
    assert_eq!(C_BRANCH_OFFSET_MASK, 0x1c7c);
    assert_eq!(ITYPE_OFFSET_MASK, 0xfff0_0000);
}

#[test]
fn offset_words_hold_the_offset_alone() {
    assert_eq!(encode_branch_offset(8), 0x0000_0400);
    assert_eq!(encode_branch_offset(-4), 0xfe00_0e80);
    assert_eq!(encode_jump_offset(8), 0x0080_0000);
    assert_eq!(encode_jump_offset(0x800), 0x0010_0000);
    assert_eq!(encode_auipc_offset(2), 0x0000_2000);
    assert_eq!(encode_itype_offset(-2048), 0x8000_0000);
    assert_eq!(encode_c_jump_offset(2), 0x0008);
    assert_eq!(encode_c_branch_offset(2), 0x0008);
    assert_eq!(encode_c_branch_offset(-256), 0x1000);
}

#[test]
fn two_branches_that_differ_in_offset_differ_under_the_mask_only() {
    let mask = encode_branch_offset(-1);
    for (a, b) in [(0i16, 8i16), (-4, 4094), (-4096, 2), (100, -100)] {
        let old_word = rv32i::bge(Register::S2, Register::A5, a);
        let new_word = rv32i::bge(Register::S2, Register::A5, b);
        assert_eq!((old_word ^ new_word) & !mask, 0);
    }
    let mask = encode_jump_offset(-1);
    let old_word = rv32i::jal(Register::T1, 0x5_5554);
    let new_word = rv32i::jal(Register::T1, -0x2_aaaa);
    assert_eq!((old_word ^ new_word) & !mask, 0);
    let mask = encode_c_jump_offset(-1);
    assert_eq!((rv32c::j(-2048) ^ rv32c::j(2046)) & !mask, 0);
    let mask = encode_c_branch_offset(-1);
    assert_eq!((rv32c::beqz(CRegister::S1, -256) ^ rv32c::beqz(CRegister::S1, 254)) & !mask, 0);
    let mask = encode_itype_offset(-1);
    let old_word = rv64i::ld(Register::A0, Register::A1, -2048);
    let new_word = rv64i::ld(Register::A0, Register::A1, 2047);
    assert_eq!((old_word ^ new_word) & !mask, 0);
}

#[test]
fn patching_any_word_leaves_the_bits_outside_the_mask() {
    for word in [0u32, 0xffff_ffff, 0x1234_5678, 0xdead_beef, 0x00b5_0463] {
        for offset in [0i64, 2, -2, 4094, -4096] {
            let patched = FixupKind::Branch.apply_fixup_32(word, offset);
            assert_eq!((patched ^ word) & !BRANCH_OFFSET_MASK, 0);
            assert_eq!(patched & BRANCH_OFFSET_MASK, encode_branch_offset(offset as i16));
            let patched = FixupKind::Jump.apply_fixup_32(word, offset);
            assert_eq!((patched ^ word) & !JUMP_OFFSET_MASK, 0);
            assert_eq!(patched & JUMP_OFFSET_MASK, encode_jump_offset(offset as i32));
            let patched = apply_auipc_fixup(word, offset as i32);
            assert_eq!((patched ^ word) & !AUIPC_OFFSET_MASK, 0);
            let patched = apply_itype_fixup(word, (offset / 2) as i16);
            assert_eq!((patched ^ word) & !ITYPE_OFFSET_MASK, 0);
            assert_eq!(immediate_of(patched), (offset / 2) as i32);
        }
    }
    for word in [0u16, 0xffff, 0x1234, 0xa001] {
        for offset in [0i64, 2, -2, 254, -256] {
            let patched = FixupKind::CBranch.apply_fixup_16(word, offset);
            assert_eq!((patched ^ word) & !C_BRANCH_OFFSET_MASK, 0);
            let patched = FixupKind::CJump.apply_fixup_16(word, offset);
            assert_eq!((patched ^ word) & !C_JUMP_OFFSET_MASK, 0);
        }
    }
}

#[test]
fn branch_with_offset_8_holds_8_in_its_offset_bits() {
    let word = rv32i::blt(Register::A0, Register::A1, 8);
    assert_eq!(word, 0x00b5_4463);
    assert_eq!(word & BRANCH_OFFSET_MASK, 0x0000_0400);
    assert_eq!(branch_offset_of(word), 8);
}

#[test]
fn branch_fixup_of_minus_4_keeps_the_other_fields() {
    let word = rv32i::beq(Register::A0, Register::A1, 0);
    assert_eq!(word, 0x00b5_0063);
    let patched = patched_32(FixupKind::Branch, word, -4);
    assert_eq!(patched, 0xfeb5_0ee3);
    assert_eq!(patched & 0x7f, 0x63);
    assert_eq!((patched >> 12) & 0x7, 0);
    assert_eq!((patched >> 15) & 0x1f, 10);
    assert_eq!((patched >> 20) & 0x1f, 11);
    assert_eq!(branch_offset_of(patched), -4);
}

#[test]
fn far_load_fixup_of_0x1800_splits_into_2_and_minus_2048() {
    let mut buffer = rv32i::auipc(Register::A0, 0).to_le_bytes().to_vec();
    buffer.extend_from_slice(&rv32i::lw(Register::A0, Register::A0, 0).to_le_bytes());
    assert_eq!(FixupKind::Load.apply_fixup(&mut buffer, 0..8, 0x1800), Ok(()));
    let first = u32::from_le_bytes([buffer[0], buffer[1], buffer[2], buffer[3]]);
    let second = u32::from_le_bytes([buffer[4], buffer[5], buffer[6], buffer[7]]);
    assert_eq!(upper_immediate_of(first), 2);
    assert_eq!(immediate_of(second), -2048);
    assert_eq!(first, 0x0000_2517);
    assert_eq!(second, 0x8005_2503);
}

#[test]
fn fixup_touches_only_the_bytes_of_its_instruction() {
    let mut buffer = vec![0xaau8; 3];
    buffer.extend_from_slice(&rv32i::beq(Register::A0, Register::A1, 0).to_le_bytes());
    buffer.extend_from_slice(&[0x55u8; 5]);
    assert_eq!(FixupKind::Branch.apply_fixup(&mut buffer, 3..7, 8), Ok(()));
    assert_eq!(&buffer[..3], &[0xaa; 3]);
    assert_eq!(&buffer[3..7], &rv32i::beq(Register::A0, Register::A1, 8).to_le_bytes());
    assert_eq!(&buffer[7..], &[0x55; 5]);

    let mut buffer = vec![0x11u8, 0x22];
    buffer.extend_from_slice(&rv32c::j(0).to_le_bytes());
    buffer.extend_from_slice(&[0x33u8, 0x44]);
    assert_eq!(FixupKind::CJump.apply_fixup(&mut buffer, 2..4, -6), Ok(()));
    assert_eq!(&buffer[..2], &[0x11, 0x22]);
    assert_eq!(&buffer[2..4], &rv32c::j(-6).to_le_bytes());
    assert_eq!(&buffer[4..], &[0x33, 0x44]);
}

#[test]
fn fixup_uses_the_start_of_the_range_only() {
    let mut buffer = rv32i::jal(Register::Zero, 0).to_le_bytes().to_vec();
    assert_eq!(FixupKind::Jump.apply_fixup(&mut buffer, 0..0, 16), Ok(()));
    assert_eq!(buffer, rv32i::j(16).to_le_bytes().to_vec());
}

#[test]
fn fixup_out_of_bounds_is_an_error() {
    for kind in [FixupKind::Jump, FixupKind::Branch] {
        let mut buffer = vec![0u8; 7];
        assert_eq!(kind.apply_fixup(&mut buffer, 4..8, 0), Err(FixupError::OutOfBounds));
        assert_eq!(kind.apply_fixup(&mut buffer, 7..11, 0), Err(FixupError::OutOfBounds));
        assert_eq!(kind.apply_fixup(&mut buffer, u64::MAX..u64::MAX, 0), Err(FixupError::OutOfBounds));
        assert_eq!(buffer, vec![0u8; 7]);
        assert_eq!(kind.apply_fixup(&mut buffer, 3..7, 0), Ok(()));
    }
    for kind in [FixupKind::CJump, FixupKind::CBranch] {
        let mut buffer = vec![0u8; 3];
        assert_eq!(kind.apply_fixup(&mut buffer, 2..4, 0), Err(FixupError::OutOfBounds));
        assert_eq!(buffer, vec![0u8; 3]);
        assert_eq!(kind.apply_fixup(&mut buffer, 1..3, 0), Ok(()));
    }
    let mut empty: Vec<u8> = Vec::new();
    assert_eq!(FixupKind::Load.apply_fixup(&mut empty, 0..8, 0), Err(FixupError::OutOfBounds));
    assert!(empty.is_empty());
}

#[test]
fn far_fixup_that_lacks_the_second_word_patches_the_first() {
    let mut buffer = rv32i::auipc(Register::A0, 0).to_le_bytes().to_vec();
    buffer.extend_from_slice(&[0u8; 3]);
    assert_eq!(FixupKind::Load.apply_fixup(&mut buffer, 0..8, 0x1800), Err(FixupError::OutOfBounds));
    assert_eq!(&buffer[..4], &rv32i::auipc(Register::A0, 2).to_le_bytes());
    assert_eq!(&buffer[4..], &[0u8; 3]);
}

#[test]
fn kinds_take_displacements_of_their_width() {
    let widths = [
        (FixupKind::Jump, 21u8, 4u64),
        (FixupKind::Branch, 13, 4),
        (FixupKind::CJump, 12, 2),
        (FixupKind::CBranch, 9, 2),
        (FixupKind::JumpFar, 32, 8),
        (FixupKind::Load, 32, 8),
    ];
    for (kind, width, len) in widths {
        assert_eq!(kind.offset_width(), width);
        assert_eq!(kind.patch_len(), len);
        let bound = 1i64 << (width - 1);
        assert!(kind.accepts(bound - 1));
        assert!(kind.accepts(-bound));
        assert!(!kind.accepts(bound));
        assert!(!kind.accepts(-bound - 1));
        assert!(kind.accepts(0));
    }
}

#[test]
fn placeholder_formats_are_empty() {
    assert_eq!(BType::null().encode(), 0);
    assert_eq!(IType::null().encode(), 0);
    assert_eq!(CbType::null().encode(), 0);
    assert_eq!(CjType::null().encode(), 0);
    let null = IType::null();
    assert_eq!(null.opcode, Opcode::Null);
    assert_eq!(null.rd, Register::Zero);
    assert_eq!(CbType::null().rs, CRegister::S0);
}
