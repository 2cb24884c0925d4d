//! Architectural registers and the subset that compressed instructions can address.

use std::convert::TryFrom;
use vstd::prelude::*;
use vstd::std_specs::convert::FromSpecImpl;
use vstd::string::StringExecFns;
use vstd::std_specs::convert::TryFromSpecImpl;

verus! {

/// One of the 32 integer registers, listed in index order.
#[derive(Clone, Copy, PartialEq, Eq, Structural, Hash, Debug)]
pub enum Register {
    Zero, Ra, Sp, Gp,
    Tp, T0, T1, T2,
    S0, S1, A0, A1,
    A2, A3, A4, A5,
    A6, A7, S2, S3,
    S4, S5, S6, S7,
    S8, S9, S10, S11,
    T3, T4, T5, T6,
}

impl Register {
    /// The register's number in the register file, between 0 and 31.
    pub open spec fn spec_index(self) -> u32 {
        match self {
            Register::Zero => 0,
            Register::Ra => 1,
            Register::Sp => 2,
            Register::Gp => 3,
            Register::Tp => 4,
            Register::T0 => 5,
            Register::T1 => 6,
            Register::T2 => 7,
            Register::S0 => 8,
            Register::S1 => 9,
            Register::A0 => 10,
            Register::A1 => 11,
            Register::A2 => 12,
            Register::A3 => 13,
            Register::A4 => 14,
            Register::A5 => 15,
            Register::A6 => 16,
            Register::A7 => 17,
            Register::S2 => 18,
            Register::S3 => 19,
            Register::S4 => 20,
            Register::S5 => 21,
            Register::S6 => 22,
            Register::S7 => 23,
            Register::S8 => 24,
            Register::S9 => 25,
            Register::S10 => 26,
            Register::S11 => 27,
            Register::T3 => 28,
            Register::T4 => 29,
            Register::T5 => 30,
            Register::T6 => 31,
        }
    }

    /// The register's number in the register file.
    #[verifier::when_used_as_spec(spec_index)]
    pub fn index(self) -> (r: u32)
        ensures
            r == self.spec_index(),
            r < 32,
    {
        match self {
            Register::Zero => 0,
            Register::Ra => 1,
            Register::Sp => 2,
            Register::Gp => 3,
            Register::Tp => 4,
            Register::T0 => 5,
            Register::T1 => 6,
            Register::T2 => 7,
            Register::S0 => 8,
            Register::S1 => 9,
            Register::A0 => 10,
            Register::A1 => 11,
            Register::A2 => 12,
            Register::A3 => 13,
            Register::A4 => 14,
            Register::A5 => 15,
            Register::A6 => 16,
            Register::A7 => 17,
            Register::S2 => 18,
            Register::S3 => 19,
            Register::S4 => 20,
            Register::S5 => 21,
            Register::S6 => 22,
            Register::S7 => 23,
            Register::S8 => 24,
            Register::S9 => 25,
            Register::S10 => 26,
            Register::S11 => 27,
            Register::T3 => 28,
            Register::T4 => 29,
            Register::T5 => 30,
            Register::T6 => 31,
        }
    }

    /// The register's name, as its variant is written.
    pub open spec fn spec_name(self) -> Seq<char> {
        match self {
            Register::Zero => "Zero"@,
            Register::Ra => "Ra"@,
            Register::Sp => "Sp"@,
            Register::Gp => "Gp"@,
            Register::Tp => "Tp"@,
            Register::T0 => "T0"@,
            Register::T1 => "T1"@,
            Register::T2 => "T2"@,
            Register::S0 => "S0"@,
            Register::S1 => "S1"@,
            Register::A0 => "A0"@,
            Register::A1 => "A1"@,
            Register::A2 => "A2"@,
            Register::A3 => "A3"@,
            Register::A4 => "A4"@,
            Register::A5 => "A5"@,
            Register::A6 => "A6"@,
            Register::A7 => "A7"@,
            Register::S2 => "S2"@,
            Register::S3 => "S3"@,
            Register::S4 => "S4"@,
            Register::S5 => "S5"@,
            Register::S6 => "S6"@,
            Register::S7 => "S7"@,
            Register::S8 => "S8"@,
            Register::S9 => "S9"@,
            Register::S10 => "S10"@,
            Register::S11 => "S11"@,
            Register::T3 => "T3"@,
            Register::T4 => "T4"@,
            Register::T5 => "T5"@,
            Register::T6 => "T6"@,
        }
    }

    /// The register's name, as its variant is written.
    pub fn name(self) -> (r: &'static str)
        ensures
            r@ == self.spec_name(),
    {
        match self {
            Register::Zero => "Zero",
            Register::Ra => "Ra",
            Register::Sp => "Sp",
            Register::Gp => "Gp",
            Register::Tp => "Tp",
            Register::T0 => "T0",
            Register::T1 => "T1",
            Register::T2 => "T2",
            Register::S0 => "S0",
            Register::S1 => "S1",
            Register::A0 => "A0",
            Register::A1 => "A1",
            Register::A2 => "A2",
            Register::A3 => "A3",
            Register::A4 => "A4",
            Register::A5 => "A5",
            Register::A6 => "A6",
            Register::A7 => "A7",
            Register::S2 => "S2",
            Register::S3 => "S3",
            Register::S4 => "S4",
            Register::S5 => "S5",
            Register::S6 => "S6",
            Register::S7 => "S7",
            Register::S8 => "S8",
            Register::S9 => "S9",
            Register::S10 => "S10",
            Register::S11 => "S11",
            Register::T3 => "T3",
            Register::T4 => "T4",
            Register::T5 => "T5",
            Register::T6 => "T6",
        }
    }

    /// The register with the given number, if there is one.
    pub fn from_index(index: usize) -> (r: Option<Register>)
        ensures
            r is Some <==> index < 32,
            r is Some ==> r->0.spec_index() == index,
    {
        match index {
            0 => Some(Register::Zero),
            1 => Some(Register::Ra),
            2 => Some(Register::Sp),
            3 => Some(Register::Gp),
            4 => Some(Register::Tp),
            5 => Some(Register::T0),
            6 => Some(Register::T1),
            7 => Some(Register::T2),
            8 => Some(Register::S0),
            9 => Some(Register::S1),
            10 => Some(Register::A0),
            11 => Some(Register::A1),
            12 => Some(Register::A2),
            13 => Some(Register::A3),
            14 => Some(Register::A4),
            15 => Some(Register::A5),
            16 => Some(Register::A6),
            17 => Some(Register::A7),
            18 => Some(Register::S2),
            19 => Some(Register::S3),
            20 => Some(Register::S4),
            21 => Some(Register::S5),
            22 => Some(Register::S6),
            23 => Some(Register::S7),
            24 => Some(Register::S8),
            25 => Some(Register::S9),
            26 => Some(Register::S10),
            27 => Some(Register::S11),
            28 => Some(Register::T3),
            29 => Some(Register::T4),
            30 => Some(Register::T5),
            31 => Some(Register::T6),
            _ => None,
        }
    }
}

/// One of the 8 registers that a 3-bit register field of a compressed
/// instruction can name, listed in field-value order.
#[derive(Clone, Copy, PartialEq, Eq, Structural, Hash, Debug)]
pub enum CRegister {
    S0, S1, A0, A1,
    A2, A3, A4, A5,
}

impl CRegister {
    /// The value of a 3-bit register field that names this register.
    pub open spec fn spec_c_index(self) -> u32 {
        match self {
            CRegister::S0 => 0,
            CRegister::S1 => 1,
            CRegister::A0 => 2,
            CRegister::A1 => 3,
            CRegister::A2 => 4,
            CRegister::A3 => 5,
            CRegister::A4 => 6,
            CRegister::A5 => 7,
        }
    }

    /// The value of a 3-bit register field that names this register.
    #[verifier::when_used_as_spec(spec_c_index)]
    pub fn c_index(self) -> (r: u32)
        ensures
            r == self.spec_c_index(),
            r < 8,
    {
        match self {
            CRegister::S0 => 0,
            CRegister::S1 => 1,
            CRegister::A0 => 2,
            CRegister::A1 => 3,
            CRegister::A2 => 4,
            CRegister::A3 => 5,
            CRegister::A4 => 6,
            CRegister::A5 => 7,
        }
    }

    /// The full register that this compressed register stands for.
    pub open spec fn spec_register(self) -> Register {
        match self {
            CRegister::S0 => Register::S0,
            CRegister::S1 => Register::S1,
            CRegister::A0 => Register::A0,
            CRegister::A1 => Register::A1,
            CRegister::A2 => Register::A2,
            CRegister::A3 => Register::A3,
            CRegister::A4 => Register::A4,
            CRegister::A5 => Register::A5,
        }
    }

    /// The register named by the given 3-bit field value, if there is one.
    pub fn from_c_index(index: usize) -> (r: Option<CRegister>)
        ensures
            r is Some <==> index < 8,
            r is Some ==> r->0.spec_c_index() == index,
    {
        match index {
            0 => Some(CRegister::S0),
            1 => Some(CRegister::S1),
            2 => Some(CRegister::A0),
            3 => Some(CRegister::A1),
            4 => Some(CRegister::A2),
            5 => Some(CRegister::A3),
            6 => Some(CRegister::A4),
            7 => Some(CRegister::A5),
            _ => None,
        }
    }
}

/// Whether a compressed instruction can address the register: these are
/// the registers numbered 8 to 15.
pub open spec fn is_compressible(reg: Register) -> bool {
    8 <= reg.spec_index() < 16
}

impl From<CRegister> for Register {
    fn from(reg: CRegister) -> (r: Register) {
        match reg {
            CRegister::S0 => Register::S0,
            CRegister::S1 => Register::S1,
            CRegister::A0 => Register::A0,
            CRegister::A1 => Register::A1,
            CRegister::A2 => Register::A2,
            CRegister::A3 => Register::A3,
            CRegister::A4 => Register::A4,
            CRegister::A5 => Register::A5,
        }
    }
}

impl FromSpecImpl<CRegister> for Register {
    open spec fn obeys_from_spec() -> bool {
        true
    }

    open spec fn from_spec(reg: CRegister) -> Register {
        reg.spec_register()
    }
}

/// The error of converting a register that no compressed instruction can
/// address; it carries that register.
#[derive(Clone, Copy, PartialEq, Eq, Structural, Debug)]
pub struct CRegisterTryFromError(Register);

impl CRegisterTryFromError {
    /// The register that could not be converted.
    pub closed spec fn spec_register(self) -> Register {
        self.0
    }

    /// The register that could not be converted.
    #[verifier::when_used_as_spec(spec_register)]
    pub fn register(self) -> (r: Register)
        ensures
            r == self.spec_register(),
    {
        self.0
    }

    /// The error in words: that the register, by its name, could not be
    /// converted.
    pub fn message(self) -> (r: String)
        ensures
            r@ == "could not convert "@ + self.spec_register().spec_name() + " to CRegister"@,
    {
        let mut text = String::from_str("could not convert ");
        text.append(self.0.name());
        text.append(" to CRegister");
        text
    }
}

/// What converting a register to a compressed register gives.
pub closed spec fn to_cregister(reg: Register) -> Result<CRegister, CRegisterTryFromError> {
    match reg {
        Register::S0 => Ok(CRegister::S0),
        Register::S1 => Ok(CRegister::S1),
        Register::A0 => Ok(CRegister::A0),
        Register::A1 => Ok(CRegister::A1),
        Register::A2 => Ok(CRegister::A2),
        Register::A3 => Ok(CRegister::A3),
        Register::A4 => Ok(CRegister::A4),
        Register::A5 => Ok(CRegister::A5),
        _ => Err(CRegisterTryFromError(reg)),
    }
}

impl TryFrom<Register> for CRegister {
    type Error = CRegisterTryFromError;

    fn try_from(reg: Register) -> (r: Result<CRegister, CRegisterTryFromError>) {
        match reg {
            Register::S0 => Ok(CRegister::S0),
            Register::S1 => Ok(CRegister::S1),
            Register::A0 => Ok(CRegister::A0),
            Register::A1 => Ok(CRegister::A1),
            Register::A2 => Ok(CRegister::A2),
            Register::A3 => Ok(CRegister::A3),
            Register::A4 => Ok(CRegister::A4),
            Register::A5 => Ok(CRegister::A5),
            _ => Err(CRegisterTryFromError(reg)),
        }
    }
}

impl TryFromSpecImpl<Register> for CRegister {
    open spec fn obeys_try_from_spec() -> bool {
        true
    }

    open spec fn try_from_spec(reg: Register) -> Result<CRegister, CRegisterTryFromError> {
        to_cregister(reg)
    }
}

/// No two registers share a number, and every number below 32 is some
/// register's: a number names at most one register.
pub proof fn lemma_register_index_is_one_to_one(a: Register, b: Register)
    ensures
        a.spec_index() < 32,
        a.spec_index() == b.spec_index() ==> a == b,
{
}

/// No two compressed registers share a field value, and every field value
/// is below 8.
pub proof fn lemma_cregister_index_is_one_to_one(a: CRegister, b: CRegister)
    ensures
        a.spec_c_index() < 8,
        a.spec_c_index() == b.spec_c_index() ==> a == b,
{
}

/// Every compressed register converts to a full register, numbered 8 above
/// its own field value, and converts back to itself.
pub proof fn lemma_cregister_round_trip(creg: CRegister)
    ensures
        is_compressible(creg.spec_register()),
        creg.spec_register().spec_index() == creg.spec_c_index() + 8,
        to_cregister(creg.spec_register()) == Ok::<CRegister, CRegisterTryFromError>(creg),
{
}

/// A register converts to a compressed register exactly when it is one of
/// the 8 addressable ones; each of the other 24 gives the error that holds it.
pub proof fn lemma_register_to_cregister(reg: Register)
    ensures
        to_cregister(reg) is Ok <==> is_compressible(reg),
        to_cregister(reg) is Ok ==> to_cregister(reg)->Ok_0.spec_register() == reg,
        to_cregister(reg) is Err ==> to_cregister(reg)->Err_0.spec_register() == reg,
{
}

} // verus!
