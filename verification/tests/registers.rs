use mitte_riscv::{CRegister, Register};

#[test]
fn test_register_from_index() {
    for i in 0..32 {
        assert_eq!(i, Register::from_index(i).unwrap() as usize);
    }
}

#[test]
fn test_cregister_from_c_index() {
    for i in 0..8 {
        assert_eq!(i, CRegister::from_c_index(i).unwrap() as usize);
    }
}
