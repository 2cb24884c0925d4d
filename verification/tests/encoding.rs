use mitte_riscv::encoding::{
    i1, i10, i12, i2, i20, i3, i4, i5, i6, i7, i8, is_signed_nbit_integer, shift_imm12_5,
    shift_imm12_6, to_i20_i12_imm_pair, BType, BitBuffer, CaType, CbType, CiType, CjType, CrType,
    IType, Opcode, RType, SType, AUIPC, JAL, LUI,
};
use mitte_riscv::{CRegister, CRegisterTryFromError, Register};

#[test]
fn signed_range_boundaries() {
    for n in 1u8..=64 {
        let bound: i128 = 1i128 << (n - 1);
        assert!(is_signed_nbit_integer(n, (bound - 1) as i64));
        assert!(is_signed_nbit_integer(n, (-bound) as i64));
        if n < 64 {
            assert!(!is_signed_nbit_integer(n, bound as i64));
            assert!(!is_signed_nbit_integer(n, (-bound - 1) as i64));
        }
    }
}

#[test]
fn signed_range_of_the_widths_in_use() {
    assert!(is_signed_nbit_integer(12, 2047));
    assert!(is_signed_nbit_integer(12, -2048));
    assert!(!is_signed_nbit_integer(12, 2048));
    assert!(!is_signed_nbit_integer(12, -2049));
    assert!(is_signed_nbit_integer(13, 4095));
    assert!(!is_signed_nbit_integer(13, 4096));
    assert!(is_signed_nbit_integer(21, -1048576));
    assert!(!is_signed_nbit_integer(21, -1048577));
    assert!(is_signed_nbit_integer(1, 0));
    assert!(is_signed_nbit_integer(1, -1));
    assert!(!is_signed_nbit_integer(1, 1));
    assert!(is_signed_nbit_integer(64, i64::MAX));
    assert!(is_signed_nbit_integer(64, i64::MIN));
    assert!(!is_signed_nbit_integer(63, i64::MAX));
    assert!(!is_signed_nbit_integer(63, i64::MIN));
}

#[test]
fn immediates_at_the_boundary_encode() {
    let word = IType { opcode: Opcode::OpImm, funct3: 0, rd: Register::A0, rs: Register::A0, imm12: 2047 }.encode();
    assert_eq!(word, 0x7ff5_0513);
    let word = IType { opcode: Opcode::OpImm, funct3: 0, rd: Register::A0, rs: Register::A0, imm12: -2048 }.encode();
    assert_eq!(word, 0x8005_0513);
    let word = SType { opcode: Opcode::Store, funct3: 2, rs: Register::A0, base: Register::Sp, imm12: 2047 }.encode();
    assert_eq!(word, 0x7ea1_2fa3);
    let word = SType { opcode: Opcode::Store, funct3: 2, rs: Register::A0, base: Register::Sp, imm12: -2048 }.encode();
    assert_eq!(word, 0x80a1_2023);
    let word = BType { opcode: Opcode::Branch, funct3: 0, rs1: Register::A0, rs2: Register::A1, offset: 4094 }.encode();
    assert_eq!(word, 0x7eb5_0fe3);
    let word = BType { opcode: Opcode::Branch, funct3: 0, rs1: Register::A0, rs2: Register::A1, offset: -4096 }.encode();
    assert_eq!(word, 0x80b5_0063);
}

#[test]
fn split_of_a_displacement() {
    assert_eq!(to_i20_i12_imm_pair(0x1800), (2, -2048));
    assert_eq!(to_i20_i12_imm_pair(0), (0, 0));
    assert_eq!(to_i20_i12_imm_pair(0x7ff), (0, 2047));
    assert_eq!(to_i20_i12_imm_pair(0x800), (1, -2048));
    assert_eq!(to_i20_i12_imm_pair(-1), (0, -1));
    assert_eq!(to_i20_i12_imm_pair(-2048), (0, -2048));
    assert_eq!(to_i20_i12_imm_pair(-2049), (-1, 2047));
    assert_eq!(to_i20_i12_imm_pair(i32::MAX), (0x8_0000, -1));
    assert_eq!(to_i20_i12_imm_pair(i32::MIN), (-0x8_0000, 0));
}

#[test]
fn halves_of_a_displacement_add_up() {
    let mut offsets: Vec<i32> = vec![i32::MIN, i32::MIN + 1, i32::MAX - 1, i32::MAX];
    let mut offset: i32 = -70_000;
    while offset <= 70_000 {
        offsets.push(offset);
        offsets.push(offset.wrapping_mul(30_011));
        offset += 7;
    }
    for offset in offsets {
        let (upper, lower) = to_i20_i12_imm_pair(offset);
        assert_eq!((upper as i64) * 4096 + lower as i64, offset as i64);
        assert!((-2048..2048).contains(&lower));
    }
}

#[test]
fn fields_are_cut_down_to_their_width() {
    let mut bits = BitBuffer::new();
    assert_eq!(bits.bits, 0);
    bits.push(i1(0xffff_ffff));
    assert_eq!(bits.bits, 0b1);
    bits.push(i2(0));
    assert_eq!(bits.bits, 0b100);
    bits.push(i3(0xf5));
    assert_eq!(bits.bits, 0b100_101);
    bits.push(i4(0x1a));
    assert_eq!(bits.bits, 0b100_101_1010);
    bits.push(i5(0x20));
    assert_eq!(bits.bits, 0b100_101_1010_00000);
    bits.push(i6(0x7f));
    assert_eq!(bits.bits, 0b100_101_1010_00000_111111);
    bits.push(i7(0x80));
    assert_eq!(bits.bits, 0b100_101_1010_00000_111111_0000000);
    bits.push(i8(0x1ff));
    assert_eq!(bits.bits, 0x681f_80ff);
}

#[test]
fn fields_wider_than_a_byte() {
    let mut bits = BitBuffer::new();
    bits.push(i10(0xffff));
    assert_eq!(bits.bits, 0x3ff);
    bits.push(i12(0x1abc));
    assert_eq!(bits.bits, 0x3f_fabc);
    bits.push(i20(0xfff1_2345));
    assert_eq!(bits.bits, 0xabc1_2345);
}

#[test]
fn register_register_word() {
    let word = RType {
        opcode: Opcode::Op,
        funct3: 0b101,
        funct7: 0b0100000,
        rd: Register::T6,
        rs1: Register::Ra,
        rs2: Register::S11,
    }.encode();
    assert_eq!(word, 0x41b0_dfb3);
    let word = RType {
        opcode: Opcode::Op,
        funct3: 0xff,
        funct7: 0xff,
        rd: Register::Zero,
        rs1: Register::Zero,
        rs2: Register::Zero,
    }.encode();
    assert_eq!(word, 0xfe00_7033);
}

#[test]
fn compressed_format_words() {
    assert_eq!(CrType { op: 0b10, rs: Register::A1, rd: Register::A0, funct4: 0b1000 }.encode(), 0x852e);
    assert_eq!(CiType { op: 0b01, rd: Register::A0, imm: -1, funct3: 0b010 }.encode(), 0x557d);
    assert_eq!(CiType { op: 0b01, rd: Register::A0, imm: -32, funct3: 0b010 }.encode(), 0x5501);
    assert_eq!(CiType { op: 0b10, rd: Register::A0, imm: 63, funct3: 0b000 }.encode(), 0x157e);
    assert_eq!(
        CaType { op: 0b01, rs: CRegister::A1, funct2: 0b11, rd: CRegister::A0, funct6: 0b100011 }.encode(),
        0x8d6d
    );
    assert_eq!(CbType { op: 0b01, rs: CRegister::A0, offset: 8, funct3: 0b110 }.encode(), 0xc501);
    assert_eq!(CbType { op: 0b01, rs: CRegister::A0, offset: -2, funct3: 0b111 }.encode(), 0xfd7d);
    assert_eq!(CjType { op: 0b01, offset: 0, funct3: 0b101 }.encode(), 0xa001);
    assert_eq!(CjType { op: 0b01, offset: -2, funct3: 0b101 }.encode(), 0xbffd);
    assert_eq!(CjType { op: 0b01, offset: 0x400, funct3: 0b101 }.encode(), 0xa101);
}

#[test]
fn opcodes() {
    assert_eq!(Opcode::Null.code(), 0);
    assert_eq!(Opcode::Load.code(), 0b0000011);
    assert_eq!(Opcode::LoadFp.code(), 0b0000111);
    assert_eq!(Opcode::Custom0.code(), 0b0001011);
    assert_eq!(Opcode::MiscMem.code(), 0b0001111);
    assert_eq!(Opcode::OpImm.code(), 0b0010011);
    assert_eq!(Opcode::Auipc.code(), AUIPC);
    assert_eq!(Opcode::OpImm32.code(), 0b0011011);
    assert_eq!(Opcode::Store.code(), 0b0100011);
    assert_eq!(Opcode::StoreFp.code(), 0b0100111);
    assert_eq!(Opcode::Custom1.code(), 0b0101011);
    assert_eq!(Opcode::Amo.code(), 0b0101111);
    assert_eq!(Opcode::Op.code(), 0b0110011);
    assert_eq!(Opcode::Lui.code(), LUI);
    assert_eq!(Opcode::Op32.code(), 0b0111011);
    assert_eq!(Opcode::Madd.code(), 0b1000011);
    assert_eq!(Opcode::Msub.code(), 0b1000111);
    assert_eq!(Opcode::Nmsub.code(), 0b1001011);
    assert_eq!(Opcode::Nmadd.code(), 0b1001111);
    assert_eq!(Opcode::OpFp.code(), 0b1010011);
    assert_eq!(Opcode::Custom2.code(), 0b1011011);
    assert_eq!(Opcode::Branch.code(), 0b1100011);
    assert_eq!(Opcode::Jalr.code(), 0b1100111);
    assert_eq!(Opcode::Jal.code(), JAL);
    assert_eq!(Opcode::System.code(), 0b1110011);
    assert_eq!(Opcode::Custom3.code(), 0b1111011);
    assert_eq!((AUIPC, LUI, JAL), (0b0010111, 0b0110111, 0b1101111));
}

#[test]
fn shift_immediates() {
    assert_eq!(shift_imm12_5(0, 0), 0);
    assert_eq!(shift_imm12_5(0b0100000, 31), 0x41f);
    assert_eq!(shift_imm12_5(0b0100000, 32), 0x400);
    assert_eq!(shift_imm12_5(0b0110100, 0xff), 0x69f);
    assert_eq!(shift_imm12_6(0b010000, 63), 0x43f);
    assert_eq!(shift_imm12_6(0b010000, 64), 0x400);
    assert_eq!(shift_imm12_6(0b011010, 37), 0x6a5);
}

#[test]
fn register_indices() {
    for index in 0..32usize {
        let reg = Register::from_index(index).unwrap();
        assert_eq!(reg.index() as usize, index);
        assert_eq!(reg as usize, index);
    }
    assert_eq!(Register::from_index(32), None);
    assert_eq!(Register::from_index(usize::MAX), None);
    for index in 0..8usize {
        let reg = CRegister::from_c_index(index).unwrap();
        assert_eq!(reg.c_index() as usize, index);
        assert_eq!(Register::from(reg).index() as usize, index + 8);
    }
    assert_eq!(CRegister::from_c_index(8), None);
    assert_eq!(Register::from_index(10), Some(Register::A0));
    assert_eq!(CRegister::from_c_index(2), Some(CRegister::A0));
}

#[test]
fn compressed_registers_convert_both_ways() {
    let mut failures = 0;
    for index in 0..32usize {
        let reg = Register::from_index(index).unwrap();
        match CRegister::try_from(reg) {
            Ok(creg) => {
                assert!((8..16).contains(&index));
                assert_eq!(Register::from(creg), reg);
                assert_eq!(creg.c_index() as usize, index - 8);
            }
            Err(error) => {
                assert!(!(8..16).contains(&index));
                assert_eq!(error.register(), reg);
                failures += 1;
            }
        }
    }
    assert_eq!(failures, 24);
    assert_eq!(CRegister::try_from(Register::S0), Ok(CRegister::S0));
    assert_eq!(CRegister::try_from(Register::A5), Ok(CRegister::A5));
    assert_eq!(Register::from(CRegister::S1), Register::S1);
}

#[test]
fn conversion_error_names_the_register() {
    let error: CRegisterTryFromError = CRegister::try_from(Register::T0).unwrap_err();
    assert_eq!(error.message(), "could not convert T0 to CRegister");
    assert_eq!(error.register(), Register::T0);
    let error = CRegister::try_from(Register::S10).unwrap_err();
    assert_eq!(error.message(), "could not convert S10 to CRegister");
    assert_eq!(Register::Zero.name(), "Zero");
    assert_eq!(Register::A6.name(), "A6");
}
