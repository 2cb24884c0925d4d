use mitte_riscv::{rv32i, Register};

use capstone::arch::riscv::{ArchExtraMode, ArchMode};
use capstone::arch::{BuildsCapstone, BuildsCapstoneExtraMode};
use capstone::Capstone;

fn disasm_32(word: u32) -> (String, String) {
    let capstone = Capstone::new()
        .riscv()
        .mode(ArchMode::RiscV32)
        .extra_mode([ArchExtraMode::RiscVC].iter().copied())
        .build()
        .unwrap();
    let code = word.to_le_bytes();
    let disasm = capstone.disasm_all(&code, 0x0).unwrap();
    assert_eq!(disasm.len(), 1);
    let first = disasm.iter().next().unwrap();
    (first.mnemonic().unwrap().to_string(), first.op_str().unwrap().to_string())
}

fn expect(word: u32, mnemonic: &str, operands: &str) {
    assert_eq!(disasm_32(word), (mnemonic.to_string(), operands.to_string()));
}

#[test]
fn test_bltz() {
    assert_eq!(rv32i::bltz(Register::A0, 8), 0x0005_4463);
    assert_eq!(rv32i::bltz(Register::A0, 8), rv32i::blt(Register::A0, Register::Zero, 8));
    expect(rv32i::bltz(Register::A0, 8), "bltz", "a0, 8");
    expect(rv32i::bltz(Register::T6, -0x800), "bltz", "t6, -0x800");
}

#[test]
fn test_bgtz() {
    assert_eq!(rv32i::bgtz(Register::A0, 8), 0x00a0_4463);
    assert_eq!(rv32i::bgtz(Register::A0, 8), rv32i::blt(Register::Zero, Register::A0, 8));
    expect(rv32i::bgtz(Register::A0, 8), "bgtz", "a0, 8");
    expect(rv32i::bgtz(Register::T6, -0x800), "bgtz", "t6, -0x800");
}

#[test]
fn test_blez() {
    expect(rv32i::blez(Register::A0, 8), "blez", "a0, 8");
}

#[test]
fn test_bgez() {
    expect(rv32i::bgez(Register::A0, 8), "bgez", "a0, 8");
}

#[test]
fn test_beqz() {
    expect(rv32i::beqz(Register::A0, 8), "beqz", "a0, 8");
}

#[test]
fn test_bnez() {
    expect(rv32i::bnez(Register::A0, 8), "bnez", "a0, 8");
}

#[test]
fn test_bgt() {
    assert_eq!(rv32i::bgt(Register::A0, Register::A1, 8), rv32i::blt(Register::A1, Register::A0, 8));
    expect(rv32i::bgt(Register::A0, Register::A1, 8), "blt", "a1, a0, 8");
}

#[test]
fn test_ble() {
    assert_eq!(rv32i::ble(Register::A0, Register::A1, 8), rv32i::bge(Register::A1, Register::A0, 8));
    expect(rv32i::ble(Register::A0, Register::A1, 8), "bge", "a1, a0, 8");
}

#[test]
fn test_bgtu() {
    expect(rv32i::bgtu(Register::A0, Register::A1, 8), "bltu", "a1, a0, 8");
}

#[test]
fn test_bleu() {
    expect(rv32i::bleu(Register::A0, Register::A1, 8), "bgeu", "a1, a0, 8");
}
