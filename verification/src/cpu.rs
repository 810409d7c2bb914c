//! The processor's state: the register file and the names by which its parts
//! are selected.

use crate::cpu::structs::Registers;
use vstd::prelude::*;

pub mod structs;

verus! {

/// One of the four status flags.
#[derive(Copy, Clone, Debug, PartialEq, Eq, Structural)]
pub enum Flag {
    /// Zero.
    Z,
    /// Subtract.
    N,
    /// Half-carry.
    H,
    /// Carry.
    C,
}

impl Flag {
    /// The bit of the flag byte that holds the flag.
    pub open spec fn position(self) -> u8 {
        match self {
            Flag::Z => 7,
            Flag::N => 6,
            Flag::H => 5,
            Flag::C => 4,
        }
    }
}

/// What a read through the H/L pair does to the pair afterwards.
#[derive(Copy, Clone, Debug, PartialEq, Eq, Structural)]
pub enum HLMode {
    Normal,
    Increment,
    Decrement,
}

/// A register selector: a single 8-bit register, or one of the 16-bit
/// registers and pairs.
#[derive(Copy, Clone, Debug, PartialEq, Eq, Structural)]
pub enum Register {
    A,
    F,
    B,
    C,
    D,
    E,
    H,
    L,
    AF,
    BC,
    DE,
    HL(HLMode),
    SP,
    PC,
}

impl Register {
    /// Whether the selector names sixteen bits.
    pub open spec fn spec_is_wide(self) -> bool {
        match self {
            Register::AF | Register::BC | Register::DE | Register::HL(_) | Register::SP
            | Register::PC => true,
            _ => false,
        }
    }

    /// Whether the selector names sixteen bits.
    #[verifier::when_used_as_spec(spec_is_wide)]
    pub fn is_wide(self) -> (wide: bool)
        ensures
            wide == self.spec_is_wide(),
    {
        match self {
            Register::AF | Register::BC | Register::DE | Register::HL(_) | Register::SP
            | Register::PC => true,
            _ => false,
        }
    }

    /// Whether two selectors name the same storage.
    pub open spec fn same_storage(self, other: Register) -> bool {
        self == other || (self is HL && other is HL)
    }
}

/// The processor: its register file.
#[derive(Copy, Clone, Debug, PartialEq)]
pub struct Cpu {
    pub registers: Registers,
}

} // verus!
